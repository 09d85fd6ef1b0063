//! Tests of log rotation, timeout configuration, locale handling, and
//! the shared text helpers.

use backend_supervisor::config::{
    backend_wait_timeout, parse_ping_timeout_env, resolve_backend_timeout_ms,
};
use backend_supervisor::locale::{normalize_shell_locale, shell_texts_for_locale};
use backend_supervisor::rotation::{rotated_log_path, LogFileSet};
use backend_supervisor::text::{parse_u64, trim_str, u64_dec_string};

fn file(content: &str) -> Option<Vec<u8>> {
    Some(content.as_bytes().to_vec())
}

#[test]
fn rotation_shifts_backups_and_drops_oldest() {
    let mut files = LogFileSet {
        active: file("fresh content at the ceiling"),
        backups: vec![file("b1"), file("b2"), file("b3"), file("b4"), file("b5")],
    };
    files.rotate_log_if_needed(10, 5, false);
    // `.1` is the just-rotated content.
    assert_eq!(files.backups[0], file("fresh content at the ceiling"));
    // `.2`..`.5` are the old `.1`..`.4`; the old `.5` is gone.
    assert_eq!(files.backups[1], file("b1"));
    assert_eq!(files.backups[2], file("b2"));
    assert_eq!(files.backups[3], file("b3"));
    assert_eq!(files.backups[4], file("b4"));
    assert_eq!(files.backups.len(), 5);
    // Rename semantics: the active file is gone until its writer reopens it.
    assert_eq!(files.active, None);
}

#[test]
fn rotation_copy_and_truncate_keeps_the_file() {
    let mut files = LogFileSet {
        active: file("0123456789"),
        backups: vec![None, None, None, None, None],
    };
    files.rotate_log_if_needed(10, 5, true);
    assert_eq!(files.backups[0], file("0123456789"));
    assert_eq!(files.backups[1], None);
    // Copy-then-truncate: the writer's handle stays on an emptied file.
    assert_eq!(files.active, Some(Vec::new()));
}

#[test]
fn rotation_below_ceiling_or_disabled_is_a_no_op() {
    let mut small = LogFileSet { active: file("tiny"), backups: vec![file("b1")] };
    small.rotate_log_if_needed(1000, 1, false);
    assert_eq!(small.active, file("tiny"));
    assert_eq!(small.backups[0], file("b1"));
    let mut zero_ceiling = LogFileSet { active: file("tiny"), backups: vec![] };
    zero_ceiling.rotate_log_if_needed(0, 0, false);
    assert_eq!(zero_ceiling.active, file("tiny"));
    let mut absent = LogFileSet { active: None, backups: vec![None] };
    absent.rotate_log_if_needed(1, 1, false);
    assert_eq!(absent.active, None);
}

#[test]
fn rotated_paths_are_numbered() {
    assert_eq!(rotated_log_path("backend.log", 1), "backend.log.1");
    assert_eq!(rotated_log_path("/logs/desktop.log", 5), "/logs/desktop.log.5");
    assert_eq!(rotated_log_path("x", 10), "x.10");
}

#[test]
fn startup_timeout_rules() {
    // Development default: a bounded window.
    assert_eq!(resolve_backend_timeout_ms(false, None), Some(20000));
    // Packaged default: "wait forever", capped at the large fallback.
    assert_eq!(resolve_backend_timeout_ms(true, None), Some(5 * 60 * 1000));
    // An override wins in either mode.
    assert_eq!(resolve_backend_timeout_ms(true, Some(" 1500 ")), Some(1500));
    assert_eq!(resolve_backend_timeout_ms(false, Some("1500")), Some(1500));
    // An explicit zero asks to wait forever.
    assert_eq!(resolve_backend_timeout_ms(false, Some("0")), None);
    assert_eq!(resolve_backend_timeout_ms(true, Some("0")), Some(5 * 60 * 1000));
    // Garbage falls back to the default.
    assert_eq!(resolve_backend_timeout_ms(false, Some("soon")), Some(20000));
}

#[test]
fn graceful_wait_ceiling() {
    assert_eq!(backend_wait_timeout(false, None), 20000);
    assert_eq!(backend_wait_timeout(false, Some("0")), 20000);
    assert_eq!(backend_wait_timeout(true, None), 5 * 60 * 1000);
    assert_eq!(backend_wait_timeout(false, Some("7000")), 7000);
}

#[test]
fn ping_timeout_overrides() {
    assert_eq!(parse_ping_timeout_env("250", 800), 250);
    assert_eq!(parse_ping_timeout_env(" 250 ", 800), 250);
    assert_eq!(parse_ping_timeout_env("0", 800), 800);
    assert_eq!(parse_ping_timeout_env("fast", 800), 800);
    assert_eq!(parse_ping_timeout_env("", 800), 800);
}

#[test]
fn locale_normalization() {
    assert_eq!(normalize_shell_locale("zh-CN"), Some("zh-CN"));
    assert_eq!(normalize_shell_locale("en-US"), Some("en-US"));
    assert_eq!(normalize_shell_locale(" zh_TW.UTF-8 "), Some("zh-CN"));
    assert_eq!(normalize_shell_locale("EN-gb"), Some("en-US"));
    assert_eq!(normalize_shell_locale("fr-FR"), None);
    assert_eq!(normalize_shell_locale("   "), None);
    assert_eq!(normalize_shell_locale("z"), None);
}

#[test]
fn shell_texts_tables() {
    let en = shell_texts_for_locale("en-US");
    assert_eq!(en.tray_hide, "Hide AstrBot");
    assert_eq!(en.tray_show, "Show AstrBot");
    assert_eq!(en.tray_reload, "Reload");
    assert_eq!(en.tray_restart_backend, "Restart Backend");
    assert_eq!(en.tray_quit, "Quit");
    let default = shell_texts_for_locale("zh-CN");
    assert_eq!(default.tray_hide, " AstrBot");
    assert_eq!(default.tray_show, " AstrBot");
    assert_eq!(default.tray_reload, "");
}

#[test]
fn text_helpers() {
    assert_eq!(trim_str("  a b \t"), "a b");
    assert_eq!(trim_str(""), "");
    assert_eq!(trim_str(" \n "), "");
    assert_eq!(parse_u64("42"), Some(42));
    assert_eq!(parse_u64("+42"), Some(42));
    assert_eq!(parse_u64(""), None);
    assert_eq!(parse_u64("-1"), None);
    assert_eq!(parse_u64("4 2"), None);
    assert_eq!(parse_u64("18446744073709551615"), Some(u64::MAX));
    assert_eq!(parse_u64("18446744073709551616"), None);
    assert_eq!(u64_dec_string(0), "0");
    assert_eq!(u64_dec_string(42), "42");
    assert_eq!(u64_dec_string(u64::MAX), "18446744073709551615");
}
