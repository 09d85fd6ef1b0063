//! Tests of launch-plan resolution: the override, packaged, and
//! development paths, source-root probing, and the derived commands.

use backend_supervisor::plan::{
    build_debug_command, child_environment, choose_launch_source, choose_source_root,
    entrypoint_relative, interpreter_relative_components, open_url_with_system_browser,
    read_runtime_manifest, resolve_custom_launch, resolve_dev_launch, resolve_packaged_launch,
    stop_child_command, LaunchSource, ResolveError,
};
use backend_supervisor::supervisor::Platform;

#[test]
fn custom_launch_is_shell_lexed() {
    let plan = resolve_custom_launch(
        "python -m app --flag \"a b\"",
        None,
        Some("/src/checkout".to_string()),
        "/workspace".to_string(),
        None,
        None,
    )
    .unwrap();
    assert_eq!(plan.cmd, "python");
    assert_eq!(plan.args, vec!["-m".to_string(), "app".to_string(), "--flag".to_string(), "a b".to_string()]);
    assert_eq!(plan.cwd, "/src/checkout");
    assert!(!plan.packaged_mode);
}

#[test]
fn custom_launch_rejects_bad_or_empty_overrides() {
    let bad = resolve_custom_launch(
        "foo \"unclosed",
        None,
        None,
        "/w".to_string(),
        None,
        None,
    );
    assert_eq!(bad.unwrap_err(), ResolveError::InvalidOverride);
    let empty = resolve_custom_launch("   ", None, None, "/w".to_string(), None, None);
    assert_eq!(empty.unwrap_err(), ResolveError::InvalidOverride);
}

#[test]
fn custom_launch_cwd_chain() {
    let explicit = resolve_custom_launch(
        "run",
        Some("/cwd".to_string()),
        Some("/detected".to_string()),
        "/workspace".to_string(),
        Some("/root".to_string()),
        Some("/webui".to_string()),
    )
    .unwrap();
    assert_eq!(explicit.cwd, "/cwd");
    assert_eq!(explicit.root_dir, Some("/root".to_string()));
    assert_eq!(explicit.webui_dir, Some("/webui".to_string()));
    let fallback = resolve_custom_launch("run", None, None, "/workspace".to_string(), None, None)
        .unwrap();
    assert_eq!(fallback.cwd, "/workspace");
}

#[test]
fn packaged_launch_requires_files() {
    let missing_python = resolve_packaged_launch(
        "/b/python".to_string(),
        false,
        "/b/launch_backend.py".to_string(),
        true,
        None,
        None,
        None,
        "/b".to_string(),
        None,
        None,
    );
    assert_eq!(missing_python.unwrap_err(), ResolveError::MissingInterpreter);
    let missing_script = resolve_packaged_launch(
        "/b/python".to_string(),
        true,
        "/b/launch_backend.py".to_string(),
        false,
        None,
        None,
        None,
        "/b".to_string(),
        None,
        None,
    );
    assert_eq!(missing_script.unwrap_err(), ResolveError::MissingEntrypoint);
}

#[test]
fn packaged_launch_defaults() {
    let plan = resolve_packaged_launch(
        "/b/python/bin/python3".to_string(),
        true,
        "/b/launch_backend.py".to_string(),
        true,
        None,
        Some("/home/user/.astrbot".to_string()),
        None,
        "/b".to_string(),
        None,
        Some("/b/webui".to_string()),
    )
    .unwrap();
    assert_eq!(plan.cmd, "/b/python/bin/python3");
    assert_eq!(plan.args, vec!["/b/launch_backend.py".to_string()]);
    assert_eq!(plan.root_dir, Some("/home/user/.astrbot".to_string()));
    assert_eq!(plan.cwd, "/home/user/.astrbot");
    assert_eq!(plan.webui_dir, Some("/b/webui".to_string()));
    assert!(plan.packaged_mode);
}

#[test]
fn packaged_launch_env_overrides_win() {
    let plan = resolve_packaged_launch(
        "/b/py".to_string(),
        true,
        "/b/main.py".to_string(),
        true,
        Some("/env/root".to_string()),
        Some("/default/root".to_string()),
        Some("/env/cwd".to_string()),
        "/b".to_string(),
        Some("/env/webui".to_string()),
        Some("/res/webui".to_string()),
    )
    .unwrap();
    assert_eq!(plan.root_dir, Some("/env/root".to_string()));
    assert_eq!(plan.cwd, "/env/cwd");
    assert_eq!(plan.webui_dir, Some("/env/webui".to_string()));
}

#[test]
fn dev_launch_needs_a_source_root() {
    let missing = resolve_dev_launch(None, None, None, None, None);
    assert_eq!(missing.unwrap_err(), ResolveError::SourceNotFound);
    let plan = resolve_dev_launch(
        Some("/src/checkout".to_string()),
        None,
        None,
        None,
        Some("/src/checkout/dashboard/dist".to_string()),
    )
    .unwrap();
    assert_eq!(plan.cmd, "uv");
    assert_eq!(
        plan.args,
        vec![
            "run".to_string(),
            "main.py".to_string(),
            "--webui-dir".to_string(),
            "/src/checkout/dashboard/dist".to_string()
        ]
    );
    assert_eq!(plan.cwd, "/src/checkout");
    assert!(!plan.packaged_mode);
}

#[test]
fn dev_launch_without_dist() {
    let plan = resolve_dev_launch(Some("/src".to_string()), None, None, None, None).unwrap();
    assert_eq!(plan.args, vec!["run".to_string(), "main.py".to_string()]);
    assert_eq!(plan.webui_dir, None);
}

#[test]
fn launch_source_order() {
    assert_eq!(choose_launch_source(Some("python app"), true), LaunchSource::CustomOverride);
    assert_eq!(choose_launch_source(Some("   "), true), LaunchSource::Packaged);
    assert_eq!(choose_launch_source(None, true), LaunchSource::Packaged);
    assert_eq!(choose_launch_source(None, false), LaunchSource::Development);
}

#[test]
fn source_root_probing() {
    let explicit = choose_source_root(
        &Some(("/explicit".to_string(), true)),
        &vec![("/a".to_string(), true)],
    );
    assert_eq!(explicit, Some("/explicit".to_string()));
    // An explicit directory without the markers falls through.
    let fallthrough = choose_source_root(
        &Some(("/explicit".to_string(), false)),
        &vec![("/a".to_string(), false), ("/b".to_string(), true), ("/c".to_string(), true)],
    );
    assert_eq!(fallthrough, Some("/b".to_string()));
    let none = choose_source_root(&None, &vec![("/a".to_string(), false)]);
    assert_eq!(none, None);
}

#[test]
fn interpreter_and_entrypoint_defaults() {
    assert_eq!(
        interpreter_relative_components(None, Platform::Windows),
        vec!["python".to_string(), "Scripts".to_string(), "python.exe".to_string()]
    );
    assert_eq!(
        interpreter_relative_components(None, Platform::OtherUnix),
        vec!["python".to_string(), "bin".to_string(), "python3".to_string()]
    );
    assert_eq!(
        interpreter_relative_components(Some("custom/py".to_string()), Platform::Windows),
        vec!["custom/py".to_string()]
    );
    assert_eq!(entrypoint_relative(None), "launch_backend.py");
    assert_eq!(entrypoint_relative(Some("start.py".to_string())), "start.py");
}

#[test]
fn manifest_fields_are_optional() {
    let full = read_runtime_manifest("{\"python\": \"py/bin/python3\", \"entrypoint\": \"run.py\"}")
        .unwrap();
    assert_eq!(full.python, Some("py/bin/python3".to_string()));
    assert_eq!(full.entrypoint, Some("run.py".to_string()));
    let empty = read_runtime_manifest("{}").unwrap();
    assert_eq!(empty.python, None);
    assert_eq!(empty.entrypoint, None);
    assert_eq!(read_runtime_manifest("not json").unwrap_err(), ResolveError::ManifestUnreadable);
}

#[test]
fn debug_command_lists_cmd_then_args() {
    let plan = resolve_custom_launch("uv run main.py", None, None, "/w".to_string(), None, None)
        .unwrap();
    assert_eq!(
        build_debug_command(&plan),
        vec!["uv".to_string(), "run".to_string(), "main.py".to_string()]
    );
}

#[test]
fn child_environment_contract() {
    let plan = resolve_packaged_launch(
        "/b/py".to_string(),
        true,
        "/b/main.py".to_string(),
        true,
        Some("/root".to_string()),
        None,
        None,
        "/b".to_string(),
        Some("/webui".to_string()),
        None,
    )
    .unwrap();
    let vars = child_environment(&plan, None, None, false, false);
    assert_eq!(
        vars,
        vec![
            ("PYTHONUNBUFFERED".to_string(), "1".to_string()),
            ("PYTHONUTF8".to_string(), "1".to_string()),
            ("PYTHONIOENCODING".to_string(), "utf-8".to_string()),
            ("ASTRBOT_DESKTOP_CLIENT".to_string(), "1".to_string()),
            ("DASHBOARD_HOST".to_string(), "127.0.0.1".to_string()),
            ("DASHBOARD_PORT".to_string(), "6185".to_string()),
            ("ASTRBOT_ROOT".to_string(), "/root".to_string()),
            ("ASTRBOT_WEBUI_DIR".to_string(), "/webui".to_string()),
        ]
    );
    // Caller-set bind host and port are not overridden; caller encodings kept.
    let vars2 = child_environment(&plan, Some("0".to_string()), Some("gbk".to_string()), true, true);
    assert!(vars2.contains(&("PYTHONUTF8".to_string(), "0".to_string())));
    assert!(vars2.contains(&("PYTHONIOENCODING".to_string(), "gbk".to_string())));
    assert!(!vars2.iter().any(|(k, _)| k == "DASHBOARD_HOST"));
    assert!(!vars2.iter().any(|(k, _)| k == "DASHBOARD_PORT"));
}

#[test]
fn non_packaged_environment_has_no_marker() {
    let plan = resolve_dev_launch(Some("/src".to_string()), None, None, None, None).unwrap();
    let vars = child_environment(&plan, None, None, false, false);
    assert!(!vars.iter().any(|(k, _)| k == "ASTRBOT_DESKTOP_CLIENT"));
    assert!(!vars.iter().any(|(k, _)| k == "DASHBOARD_HOST"));
}

#[test]
fn browser_commands_by_platform() {
    let (cmd, args) = open_url_with_system_browser("https://example.com/", Platform::MacOs).unwrap();
    assert_eq!(cmd, "open");
    assert_eq!(args, vec!["https://example.com/".to_string()]);
    let (wcmd, wargs) =
        open_url_with_system_browser("https://example.com/", Platform::Windows).unwrap();
    assert_eq!(wcmd, "rundll32");
    assert_eq!(
        wargs,
        vec!["url.dll,FileProtocolHandler".to_string(), "https://example.com/".to_string()]
    );
    let (ucmd, uargs) =
        open_url_with_system_browser("https://example.com/", Platform::OtherUnix).unwrap();
    assert_eq!(ucmd, "xdg-open");
    assert_eq!(uargs, vec!["https://example.com/".to_string()]);
    assert!(open_url_with_system_browser("https://example.com/", Platform::Unknown).is_none());
}

#[test]
fn stop_commands_by_platform() {
    let (kcmd, kargs) = stop_child_command(4242, Platform::OtherUnix);
    assert_eq!(kcmd, "kill");
    assert_eq!(kargs, vec!["-TERM".to_string(), "4242".to_string()]);
    let (tcmd, targs) = stop_child_command(4242, Platform::Windows);
    assert_eq!(tcmd, "taskkill");
    assert_eq!(targs, vec!["/pid".to_string(), "4242".to_string(), "/t".to_string()]);
}
