//! The shell's locale handling: the fixed text table per locale, and the
//! normalization of raw locale strings to the two supported tags.

use vstd::prelude::*;
use crate::text::{lower_char, str_eq, trim_str, trimmed};

verus! {

/// The shell's fixed texts for one locale.
pub struct ShellTexts {
    pub tray_hide: &'static str,
    pub tray_show: &'static str,
    pub tray_reload: &'static str,
    pub tray_restart_backend: &'static str,
    pub tray_quit: &'static str,
}

/// The text table for a normalized locale: English for `en-US`, the
/// default table for everything else.
pub fn shell_texts_for_locale(locale: &str) -> (r: ShellTexts)
    ensures
        locale@ == "en-US"@ ==> {
            &&& r.tray_hide@ == "Hide AstrBot"@
            &&& r.tray_show@ == "Show AstrBot"@
            &&& r.tray_reload@ == "Reload"@
            &&& r.tray_restart_backend@ == "Restart Backend"@
            &&& r.tray_quit@ == "Quit"@
        },
        locale@ != "en-US"@ ==> {
            &&& r.tray_hide@ == " AstrBot"@
            &&& r.tray_show@ == " AstrBot"@
            &&& r.tray_reload@ == ""@
            &&& r.tray_restart_backend@ == ""@
            &&& r.tray_quit@ == ""@
        },
{
    if str_eq(locale, "en-US") {
        return ShellTexts {
            tray_hide: "Hide AstrBot",
            tray_show: "Show AstrBot",
            tray_reload: "Reload",
            tray_restart_backend: "Restart Backend",
            tray_quit: "Quit",
        };
    }
    ShellTexts {
        tray_hide: " AstrBot",
        tray_show: " AstrBot",
        tray_reload: "",
        tray_restart_backend: "",
        tray_quit: "",
    }
}

/// The normalized locale a raw string denotes: the two exact tags pass
/// through; any other value is matched by its case-folded language
/// prefix; everything else — the empty string included — is unsupported.
pub open spec fn normalize_shell_locale_spec(raw: Seq<char>) -> Option<Seq<char>> {
    let t = trimmed(raw);
    if t.len() == 0 {
        None
    } else if t == "zh-CN"@ {
        Some("zh-CN"@)
    } else if t == "en-US"@ {
        Some("en-US"@)
    } else if t.len() >= 2 && lower_char(t[0]) == 'z' && lower_char(t[1]) == 'h' {
        Some("zh-CN"@)
    } else if t.len() >= 2 && lower_char(t[0]) == 'e' && lower_char(t[1]) == 'n' {
        Some("en-US"@)
    } else {
        None
    }
}

fn lower_c(c: char) -> (r: char)
    ensures
        r == lower_char(c),
{
    if 'A' <= c && c <= 'Z' {
        ((c as u8) + 32) as char
    } else {
        c
    }
}

/// Normalizes a raw locale string to one of the supported tags.
pub fn normalize_shell_locale(raw: &str) -> (r: Option<&'static str>)
    ensures
        crate::supervisor::opt_str_view(r) == normalize_shell_locale_spec(raw@),
{
    let t = trim_str(raw);
    let n = t.unicode_len();
    if n == 0 {
        return None;
    }
    if str_eq(t, "zh-CN") {
        return Some("zh-CN");
    }
    if str_eq(t, "en-US") {
        return Some("en-US");
    }
    if n >= 2 {
        let c0 = lower_c(t.get_char(0));
        let c1 = lower_c(t.get_char(1));
        if c0 == 'z' && c1 == 'h' {
            return Some("zh-CN");
        }
        if c0 == 'e' && c1 == 'n' {
            return Some("en-US");
        }
    }
    None
}

} // verus!
