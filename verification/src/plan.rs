//! Launch-plan resolution: how the child is started. Three sources, in
//! order — an operator-supplied command override, a packaged runtime
//! described by a manifest, a development source checkout. The resolvers
//! are pure: every path, existence check, and environment override comes
//! in as a plain value, and the chosen plan is pinned exactly.

use vstd::prelude::*;
use crate::supervisor::{opt_str_view, opt_string_view, Platform};
use crate::text::{dec_chars, trimmed, u64_dec_string};

verus! {

/// How the child is to be started. Immutable once built; recomputed on
/// every launch or restart attempt, never cached.
#[derive(Debug)]
pub struct LaunchPlan {
    pub cmd: String,
    pub args: Vec<String>,
    pub cwd: String,
    pub root_dir: Option<String>,
    pub webui_dir: Option<String>,
    pub packaged_mode: bool,
}

/// The mathematical view of a launch plan.
pub struct LaunchPlanView {
    pub cmd: Seq<char>,
    pub args: Seq<Seq<char>>,
    pub cwd: Seq<char>,
    pub root_dir: Option<Seq<char>>,
    pub webui_dir: Option<Seq<char>>,
    pub packaged_mode: bool,
}

impl View for LaunchPlan {
    type V = LaunchPlanView;

    open spec fn view(&self) -> LaunchPlanView {
        LaunchPlanView {
            cmd: self.cmd@,
            args: self.args.deep_view(),
            cwd: self.cwd@,
            root_dir: match self.root_dir {
                Some(r) => Some(r@),
                None => None,
            },
            webui_dir: match self.webui_dir {
                Some(w) => Some(w@),
                None => None,
            },
            packaged_mode: self.packaged_mode,
        }
    }
}

/// Why no launch plan could be resolved.
#[derive(PartialEq, Eq, Structural, Clone, Copy, Debug)]
pub enum ResolveError {
    /// The operator-supplied command line cannot be tokenized, or is
    /// empty.
    InvalidOverride,
    /// The packaged runtime manifest is not readable JSON.
    ManifestUnreadable,
    /// The packaged interpreter executable is missing.
    MissingInterpreter,
    /// The packaged launch script is missing.
    MissingEntrypoint,
    /// No source checkout could be located.
    SourceNotFound,
}

/// What shlex makes of a command line: `None` on erroneous input, else
/// the tokens. A function of the string alone.
pub uninterp spec fn shlex_tokens_of(s: Seq<char>) -> Option<Seq<Seq<char>>>;

/// Relies on shlex::split: POSIX-shell word splitting of the operator's
/// command override; `None` for input shlex deems erroneous.
#[verifier::external_body]
fn shlex_split(s: &str) -> (r: Option<Vec<String>>)
    ensures
        (r is Some) == (shlex_tokens_of(s@) is Some),
        r matches Some(v) ==> Some(v.deep_view()) == shlex_tokens_of(s@),
{
    shlex::split(s)
}

/// The optional `python` and `entrypoint` fields of the packaged
/// runtime manifest, as plain values.
#[derive(Debug)]
pub struct RuntimeManifest {
    pub python: Option<String>,
    pub entrypoint: Option<String>,
}

/// Whether a string parses as one JSON document — a function of the
/// string alone, decided by serde_json.
pub uninterp spec fn json_text_parses(s: Seq<char>) -> bool;

/// Relies on serde_json::from_str and Value::{get, as_str}: reads the
/// optional `python` and `entrypoint` strings out of the packaged
/// runtime manifest; `None` where the text is not JSON.
#[verifier::external_body]
fn parse_runtime_manifest(text: &str) -> (r: Option<RuntimeManifest>)
    ensures
        (r is Some) == json_text_parses(text@),
{
    let v: serde_json::Value = match serde_json::from_str(text) {
        Ok(v) => v,
        Err(_) => return None,
    };
    Some(RuntimeManifest {
        python: v.get("python").and_then(|p| p.as_str()).map(|s| s.to_string()),
        entrypoint: v.get("entrypoint").and_then(|p| p.as_str()).map(|s| s.to_string()),
    })
}

/// Reads the packaged runtime manifest: text that is not JSON is the
/// `ManifestUnreadable` resolution error; the two fields are optional.
pub fn read_runtime_manifest(text: &str) -> (r: Result<RuntimeManifest, ResolveError>)
    ensures
        (r is Ok) == json_text_parses(text@),
        !json_text_parses(text@) ==> r == Err::<RuntimeManifest, ResolveError>(
            ResolveError::ManifestUnreadable,
        ),
{
    match parse_runtime_manifest(text) {
        Some(manifest) => Ok(manifest),
        None => Err(ResolveError::ManifestUnreadable),
    }
}

/// Which source a launch plan comes from.
#[derive(PartialEq, Eq, Structural, Clone, Copy, Debug)]
pub enum LaunchSource {
    /// An operator-supplied command override.
    CustomOverride,
    /// The packaged runtime manifest alongside bundled resources.
    Packaged,
    /// A development source checkout.
    Development,
}

/// Resolution order, first match wins: a command override that is
/// nonempty after trimming; a present runtime manifest; the development
/// fallback.
pub open spec fn choose_launch_source_spec(
    custom_cmd: Option<Seq<char>>,
    manifest_present: bool,
) -> LaunchSource {
    if custom_cmd matches Some(c) && trimmed(c).len() > 0 {
        LaunchSource::CustomOverride
    } else if manifest_present {
        LaunchSource::Packaged
    } else {
        LaunchSource::Development
    }
}

/// Picks which resolver runs.
pub fn choose_launch_source(custom_cmd: Option<&str>, manifest_present: bool) -> (r: LaunchSource)
    ensures
        r == choose_launch_source_spec(opt_str_view(custom_cmd), manifest_present),
{
    let custom_nonempty = match custom_cmd {
        Some(c) => crate::text::trim_str(c).unicode_len() > 0,
        None => false,
    };
    if custom_nonempty {
        LaunchSource::CustomOverride
    } else if manifest_present {
        LaunchSource::Packaged
    } else {
        LaunchSource::Development
    }
}

/// Resolves the operator's explicit command override: the line is
/// shell-lexed into argv; failure to tokenize, or an empty result, is
/// `InvalidOverride`. The working directory defaults to the detected
/// source root, else the workspace root.
pub fn resolve_custom_launch(
    custom_cmd: &str,
    cwd_override: Option<String>,
    detected_source_root: Option<String>,
    workspace_root: String,
    root_dir: Option<String>,
    webui_dir: Option<String>,
) -> (r: Result<LaunchPlan, ResolveError>)
    ensures
        (shlex_tokens_of(custom_cmd@) is None || (shlex_tokens_of(custom_cmd@) matches Some(t)
            && t.len() == 0)) <==> r == Err::<LaunchPlan, ResolveError>(
            ResolveError::InvalidOverride,
        ),
        shlex_tokens_of(custom_cmd@) matches Some(toks) ==> toks.len() > 0 ==> (r matches Ok(p) && {
            &&& p@.cmd == toks[0]
            &&& p@.args == toks.skip(1)
            &&& p@.cwd == (match cwd_override {
                Some(c) => c@,
                None => match detected_source_root {
                    Some(d) => d@,
                    None => workspace_root@,
                },
            })
            &&& p@.root_dir == opt_string_view(root_dir)
            &&& p@.webui_dir == opt_string_view(webui_dir)
            &&& !p@.packaged_mode
        }),
{
    let mut pieces = match shlex_split(custom_cmd) {
        Some(p) => p,
        None => {
            return Err(ResolveError::InvalidOverride);
        },
    };
    if pieces.len() == 0 {
        return Err(ResolveError::InvalidOverride);
    }
    let ghost toks = shlex_tokens_of(custom_cmd@)->Some_0;
    let cmd = pieces.remove(0);
    let cwd = match cwd_override {
        Some(c) => c,
        None => match detected_source_root {
            Some(d) => d,
            None => workspace_root,
        },
    };
    let plan = LaunchPlan {
        cmd,
        args: pieces,
        cwd,
        root_dir,
        webui_dir,
        packaged_mode: false,
    };
    proof {
        assert(plan@.args =~= toks.skip(1));
    }
    Ok(plan)
}

/// The path components of the packaged interpreter, relative to the
/// manifest's directory: what the manifest names, else the platform's
/// bundled-runtime convention.
pub fn interpreter_relative_components(manifest_python: Option<String>, platform: Platform) -> (r:
    Vec<String>)
    ensures
        manifest_python matches Some(p) ==> r.deep_view() == seq![p@],
        manifest_python is None && platform is Windows ==> r.deep_view() == seq![
            "python"@,
            "Scripts"@,
            "python.exe"@,
        ],
        manifest_python is None && !(platform is Windows) ==> r.deep_view() == seq![
            "python"@,
            "bin"@,
            "python3"@,
        ],
{
    let mut v: Vec<String> = Vec::new();
    match manifest_python {
        Some(p) => {
            v.push(p);
            proof {
                assert(v.deep_view() =~= seq![v@[0]@]);
            }
        },
        None => {
            v.push("python".to_owned());
            if matches!(platform, Platform::Windows) {
                v.push("Scripts".to_owned());
                v.push("python.exe".to_owned());
                proof {
                    assert(v.deep_view() =~= seq!["python"@, "Scripts"@, "python.exe"@]);
                }
            } else {
                v.push("bin".to_owned());
                v.push("python3".to_owned());
                proof {
                    assert(v.deep_view() =~= seq!["python"@, "bin"@, "python3"@]);
                }
            }
        },
    }
    v
}

/// The manifest-relative path of the launch script: what the manifest
/// names, else the conventional entry point.
pub fn entrypoint_relative(manifest_entrypoint: Option<String>) -> (r: String)
    ensures
        manifest_entrypoint matches Some(e) ==> r@ == e@,
        manifest_entrypoint is None ==> r@ == "launch_backend.py"@,
{
    match manifest_entrypoint {
        Some(e) => e,
        None => "launch_backend.py".to_owned(),
    }
}

/// Resolves the packaged launch: the interpreter and launch script must
/// exist on disk; the root directory defaults to the per-user packaged
/// data directory; the working directory defaults to the root, else the
/// manifest's directory; the UI asset directory defaults to the bundled
/// resource where present.
pub fn resolve_packaged_launch(
    interpreter_path: String,
    interpreter_exists: bool,
    entrypoint_path: String,
    entrypoint_exists: bool,
    env_root: Option<String>,
    default_root: Option<String>,
    env_cwd: Option<String>,
    backend_dir: String,
    env_webui: Option<String>,
    resource_webui: Option<String>,
) -> (r: Result<LaunchPlan, ResolveError>)
    ensures
        !interpreter_exists ==> r == Err::<LaunchPlan, ResolveError>(
            ResolveError::MissingInterpreter,
        ),
        interpreter_exists && !entrypoint_exists ==> r == Err::<LaunchPlan, ResolveError>(
            ResolveError::MissingEntrypoint,
        ),
        interpreter_exists && entrypoint_exists ==> (r matches Ok(p) && {
            &&& p@.cmd == interpreter_path@
            &&& p@.args == seq![entrypoint_path@]
            &&& p@.root_dir == (match env_root {
                Some(e) => Some(e@),
                None => opt_string_view(default_root),
            })
            &&& p@.cwd == (match env_cwd {
                Some(c) => c@,
                None => match env_root {
                    Some(e) => e@,
                    None => match default_root {
                        Some(d) => d@,
                        None => backend_dir@,
                    },
                },
            })
            &&& p@.webui_dir == (match env_webui {
                Some(w) => Some(w@),
                None => opt_string_view(resource_webui),
            })
            &&& p@.packaged_mode
        }),
{
    if !interpreter_exists {
        return Err(ResolveError::MissingInterpreter);
    }
    if !entrypoint_exists {
        return Err(ResolveError::MissingEntrypoint);
    }
    let root_dir = match env_root {
        Some(e) => Some(e),
        None => default_root,
    };
    let cwd = match env_cwd {
        Some(c) => c,
        None => match &root_dir {
            Some(r) => r.clone(),
            None => backend_dir,
        },
    };
    let webui_dir = match env_webui {
        Some(w) => Some(w),
        None => resource_webui,
    };
    let mut args: Vec<String> = Vec::new();
    args.push(entrypoint_path);
    let plan = LaunchPlan { cmd: interpreter_path, args, cwd, root_dir, webui_dir, packaged_mode: true };
    proof {
        assert(plan@.args =~= seq![plan.args@[0]@]);
    }
    Ok(plan)
}

/// Resolves the development fallback: a located source checkout runs
/// under a package-manager-style command, with the dashboard's built
/// assets handed over where they exist.
pub fn resolve_dev_launch(
    source_root: Option<String>,
    env_cwd: Option<String>,
    env_root: Option<String>,
    env_webui: Option<String>,
    dist_webui: Option<String>,
) -> (r: Result<LaunchPlan, ResolveError>)
    ensures
        source_root is None ==> r == Err::<LaunchPlan, ResolveError>(ResolveError::SourceNotFound),
        source_root matches Some(root) ==> (r matches Ok(p) && {
            let webui = match env_webui {
                Some(w) => Some(w@),
                None => opt_string_view(dist_webui),
            };
            &&& p@.cmd == "uv"@
            &&& p@.args == (match webui {
                Some(w) => seq!["run"@, "main.py"@, "--webui-dir"@, w],
                None => seq!["run"@, "main.py"@],
            })
            &&& p@.cwd == (match env_cwd {
                Some(c) => c@,
                None => root@,
            })
            &&& p@.root_dir == opt_string_view(env_root)
            &&& p@.webui_dir == webui
            &&& !p@.packaged_mode
        }),
{
    let root = match source_root {
        Some(rt) => rt,
        None => {
            return Err(ResolveError::SourceNotFound);
        },
    };
    let webui_dir = match env_webui {
        Some(w) => Some(w),
        None => dist_webui,
    };
    let mut args: Vec<String> = Vec::new();
    args.push("run".to_owned());
    args.push("main.py".to_owned());
    match &webui_dir {
        Some(w) => {
            args.push("--webui-dir".to_owned());
            args.push(w.clone());
            proof {
                assert(args.deep_view() =~= seq!["run"@, "main.py"@, "--webui-dir"@, w@]);
            }
        },
        None => {
            proof {
                assert(args.deep_view() =~= seq!["run"@, "main.py"@]);
            }
        },
    }
    let cwd = match env_cwd {
        Some(c) => c,
        None => root,
    };
    Ok(LaunchPlan { cmd: "uv".to_owned(), args, cwd, root_dir: env_root, webui_dir, packaged_mode: false })
}

/// The first candidate directory that carries the source checkout's
/// marker files.
pub open spec fn first_marked(candidates: Seq<(String, bool)>) -> Option<Seq<char>>
    decreases candidates.len(),
{
    if candidates.len() == 0 {
        None
    } else if candidates[0].1 {
        Some(candidates[0].0@)
    } else {
        first_marked(candidates.drop_first())
    }
}

/// Picks the source checkout: the explicit override wins when its
/// marker files are present; else the first marked candidate. Each pair
/// is a directory and whether the markers were found in it.
pub fn choose_source_root(explicit: &Option<(String, bool)>, candidates: &Vec<(String, bool)>) -> (r:
    Option<String>)
    ensures
        *explicit matches Some(e) ==> e.1 ==> (r matches Some(q) && q@ == e.0@),
        !(*explicit matches Some(e) && e.1) ==> opt_string_view(r) == first_marked(candidates@),
{
    match explicit {
        Some((path, marked)) => {
            if *marked {
                return Some(path.clone());
            }
        },
        None => {},
    }
    let n = candidates.len();
    let mut i: usize = 0;
    proof {
        assert(candidates@.subrange(0, n as int) =~= candidates@);
    }
    while i < n
        invariant
            0 <= i <= n,
            n == candidates@.len(),
            !(*explicit matches Some(e) && e.1),
            first_marked(candidates@) == first_marked(candidates@.subrange(i as int, n as int)),
        decreases n - i,
    {
        let ghost rest = candidates@.subrange(i as int, n as int);
        if candidates[i].1 {
            proof {
                assert(rest[0] == candidates@[i as int]);
            }
            return Some(candidates[i].0.clone());
        }
        proof {
            assert(rest.drop_first() =~= candidates@.subrange(i + 1, n as int));
        }
        i = i + 1;
    }
    proof {
        assert(candidates@.subrange(n as int, n as int) =~= Seq::<(String, bool)>::empty());
    }
    None
}

/// The command line as diagnostics show it: the command, then its
/// arguments.
pub fn build_debug_command(plan: &LaunchPlan) -> (r: Vec<String>)
    ensures
        r.deep_view() == seq![plan.cmd@] + plan.args.deep_view(),
{
    let mut parts: Vec<String> = Vec::new();
    parts.push(plan.cmd.clone());
    let n = plan.args.len();
    let mut i: usize = 0;
    while i < n
        invariant
            0 <= i <= n,
            n == plan.args@.len(),
            parts@.len() == i + 1,
            parts@[0]@ == plan.cmd@,
            forall|k: int| 0 <= k < i ==> #[trigger] parts@[k + 1]@ == plan.args@[k]@,
        decreases n - i,
    {
        parts.push(plan.args[i].clone());
        i = i + 1;
    }
    proof {
        let expected = seq![plan.cmd@] + plan.args.deep_view();
        assert forall|k: int| 0 <= k < parts.deep_view().len() implies parts.deep_view()[k]
            == expected[k] by {
            if k > 0 {
                assert(parts@[(k - 1) + 1]@ == plan.args@[k - 1]@);
            }
        }
        assert(parts.deep_view() =~= expected);
    }
    parts
}

/// The environment handed to the child, in order: unbuffered output;
/// UTF-8 I/O, keeping the caller's own settings; in packaged mode the
/// desktop-managed marker, and the default bind host and port unless the
/// caller's environment already sets them; the root and UI-asset
/// directories where the plan resolved them.
pub open spec fn child_environment_spec(
    plan: LaunchPlanView,
    env_utf8: Option<Seq<char>>,
    env_io_encoding: Option<Seq<char>>,
    host_already_set: bool,
    port_already_set: bool,
) -> Seq<(Seq<char>, Seq<char>)> {
    seq![
        ("PYTHONUNBUFFERED"@, "1"@),
        (
            "PYTHONUTF8"@,
            match env_utf8 {
                Some(v) => v,
                None => "1"@,
            },
        ),
        (
            "PYTHONIOENCODING"@,
            match env_io_encoding {
                Some(v) => v,
                None => "utf-8"@,
            },
        ),
    ] + (if plan.packaged_mode {
        seq![("ASTRBOT_DESKTOP_CLIENT"@, "1"@)] + (if !host_already_set {
            seq![("DASHBOARD_HOST"@, "127.0.0.1"@)]
        } else {
            Seq::empty()
        }) + (if !port_already_set {
            seq![("DASHBOARD_PORT"@, "6185"@)]
        } else {
            Seq::empty()
        })
    } else {
        Seq::empty()
    }) + (match plan.root_dir {
        Some(rt) => seq![("ASTRBOT_ROOT"@, rt)],
        None => Seq::empty(),
    }) + (match plan.webui_dir {
        Some(w) => seq![("ASTRBOT_WEBUI_DIR"@, w)],
        None => Seq::empty(),
    })
}

/// Builds the child's environment variables.
pub fn child_environment(
    plan: &LaunchPlan,
    env_utf8: Option<String>,
    env_io_encoding: Option<String>,
    host_already_set: bool,
    port_already_set: bool,
) -> (r: Vec<(String, String)>)
    ensures
        r.deep_view() == child_environment_spec(
            plan@,
            opt_string_view(env_utf8),
            opt_string_view(env_io_encoding),
            host_already_set,
            port_already_set,
        ),
{
    let mut vars: Vec<(String, String)> = Vec::new();
    vars.push(("PYTHONUNBUFFERED".to_owned(), "1".to_owned()));
    let utf8_value = match env_utf8 {
        Some(v) => v,
        None => "1".to_owned(),
    };
    vars.push(("PYTHONUTF8".to_owned(), utf8_value));
    let io_value = match env_io_encoding {
        Some(v) => v,
        None => "utf-8".to_owned(),
    };
    vars.push(("PYTHONIOENCODING".to_owned(), io_value));
    if plan.packaged_mode {
        vars.push(("ASTRBOT_DESKTOP_CLIENT".to_owned(), "1".to_owned()));
        if !host_already_set {
            vars.push(("DASHBOARD_HOST".to_owned(), "127.0.0.1".to_owned()));
        }
        if !port_already_set {
            vars.push(("DASHBOARD_PORT".to_owned(), "6185".to_owned()));
        }
    }
    match &plan.root_dir {
        Some(rt) => {
            vars.push(("ASTRBOT_ROOT".to_owned(), rt.clone()));
        },
        None => {},
    }
    match &plan.webui_dir {
        Some(w) => {
            vars.push(("ASTRBOT_WEBUI_DIR".to_owned(), w.clone()));
        },
        None => {},
    }
    proof {
        assert(vars.deep_view() =~= child_environment_spec(
            plan@,
            opt_string_view(env_utf8),
            opt_string_view(env_io_encoding),
            host_already_set,
            port_already_set,
        ));
    }
    vars
}

/// The command that hands a URL to the system browser, by platform; a
/// platform beyond the three majors has none.
pub fn open_url_with_system_browser(url: &str, platform: Platform) -> (r: Option<
    (String, Vec<String>),
>)
    ensures
        platform is MacOs ==> (r matches Some(c) && c.0@ == "open"@ && c.1.deep_view() == seq![url@]),
        platform is Windows ==> (r matches Some(c) && c.0@ == "rundll32"@ && c.1.deep_view() == seq![
            "url.dll,FileProtocolHandler"@,
            url@,
        ]),
        platform is OtherUnix ==> (r matches Some(c) && c.0@ == "xdg-open"@ && c.1.deep_view()
            == seq![url@]),
        platform is Unknown ==> r is None,
{
    let mut args: Vec<String> = Vec::new();
    match platform {
        Platform::MacOs => {
            args.push(url.to_owned());
            proof {
                assert(args.deep_view() =~= seq![url@]);
            }
            Some(("open".to_owned(), args))
        },
        Platform::Windows => {
            args.push("url.dll,FileProtocolHandler".to_owned());
            args.push(url.to_owned());
            proof {
                assert(args.deep_view() =~= seq!["url.dll,FileProtocolHandler"@, url@]);
            }
            Some(("rundll32".to_owned(), args))
        },
        Platform::OtherUnix => {
            args.push(url.to_owned());
            proof {
                assert(args.deep_view() =~= seq![url@]);
            }
            Some(("xdg-open".to_owned(), args))
        },
        Platform::Unknown => None,
    }
}

/// The platform's graceful-termination command for the child: a
/// tree-kill where processes cannot be signaled, a TERM signal
/// elsewhere. The same wait-for-exit polling follows either.
pub fn stop_child_command(pid: u32, platform: Platform) -> (r: (String, Vec<String>))
    ensures
        platform is Windows ==> r.0@ == "taskkill"@ && r.1.deep_view() == seq![
            "/pid"@,
            dec_chars(pid as nat),
            "/t"@,
        ],
        !(platform is Windows) ==> r.0@ == "kill"@ && r.1.deep_view() == seq![
            "-TERM"@,
            dec_chars(pid as nat),
        ],
{
    let pid_text = u64_dec_string(pid as u64);
    let mut args: Vec<String> = Vec::new();
    if matches!(platform, Platform::Windows) {
        args.push("/pid".to_owned());
        args.push(pid_text);
        args.push("/t".to_owned());
        proof {
            assert(args.deep_view() =~= seq!["/pid"@, dec_chars(pid as nat), "/t"@]);
        }
        ("taskkill".to_owned(), args)
    } else {
        args.push("-TERM".to_owned());
        args.push(pid_text);
        proof {
            assert(args.deep_view() =~= seq!["-TERM"@, dec_chars(pid as nat)]);
        }
        ("kill".to_owned(), args)
    }
}

} // verus!
