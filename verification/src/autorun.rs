//! Starting with the system, and starting the animation with the program.
//!
//! Two settings live in the user's part of the Windows registry: whether the
//! program starts at logon (kept by the auto-launch entry) and whether it
//! starts its animation right away (the value `autostart` under the program's
//! own key). The functions here decide; the program reads and writes.
use vstd::prelude::*;
use crate::text::{bool_from_text, bool_text, bool_to_string, false_text, parse_bool, text_equal};

verus! {

/// The name of the program's registry key and of its auto-launch entry.
pub const PROGRAM_KEY_NAME: &'static str = "Koliy82RPC";

/// The value under the program's key that says whether the animation starts with the program.
pub const AUTOSTART_SUB_KEY: &'static str = "autostart";

/// The registry path, under the current user, where Windows lists the programs
/// that start at logon: `Software\Microsoft\Windows\CurrentVersion\Run`.
pub fn autorun_key_get() -> (path: Vec<String>)
    ensures
        path@.len() == 5,
        path@[0]@ == "Software"@,
        path@[1]@ == "Microsoft"@,
        path@[2]@ == "Windows"@,
        path@[3]@ == "CurrentVersion"@,
        path@[4]@ == "Run"@,
{
    let mut path: Vec<String> = Vec::new();
    path.push(String::from_str("Software"));
    path.push(String::from_str("Microsoft"));
    path.push(String::from_str("Windows"));
    path.push(String::from_str("CurrentVersion"));
    path.push(String::from_str("Run"));
    path
}

/// The registry path, under the current user, of the program's own key:
/// `Software\Koliy82RPC`.
pub fn program_key_get() -> (path: Vec<String>)
    ensures
        path@.len() == 2,
        path@[0]@ == "Software"@,
        path@[1]@ == "Koliy82RPC"@,
{
    let mut path: Vec<String> = Vec::new();
    path.push(String::from_str("Software"));
    path.push(String::from_str("Koliy82RPC"));
    path
}

/// The text of a stored value, if there is one.
pub open spec fn stored_text(stored: Option<&str>) -> Option<Seq<char>> {
    match stored {
        Some(s) => Some(s@),
        None => None,
    }
}

/// A stored value is usable: missing, or one that reads as a truth value.
/// The program panics on any other.
pub open spec fn readable(stored: Option<Seq<char>>) -> bool {
    stored matches Some(s) ==> bool_from_text(s) is Some
}

/// The value that the menu's "start" entry writes over `stored`: the opposite
/// of the stored truth value, or `false` when nothing was stored.
pub open spec fn autostart_next(stored: Option<Seq<char>>) -> Seq<char> {
    match stored {
        Some(s) => bool_text(!bool_from_text(s).unwrap()),
        None => false_text(),
    }
}

/// What a change of the autostart value writes.
pub struct AutostartUpdate {
    /// The text to store.
    pub value: String,
    /// A value was stored before and is flipped (else it is created as `false`).
    pub toggled: bool,
}

/// The change of the autostart value when the user clicks the "start" entry:
/// a stored `true` becomes `false` and the reverse; a missing value is
/// created as `false`. A stored value that is no truth value makes the
/// program panic, so it is left out.
pub fn autostart_change(stored: Option<&str>) -> (update: AutostartUpdate)
    requires
        readable(stored_text(stored)),
    ensures
        update.value@ == autostart_next(stored_text(stored)),
        update.toggled == stored is Some,
{
    match stored {
        Some(s) => {
            let current = match parse_bool(s) {
                Some(b) => b,
                None => false,
            };
            AutostartUpdate { value: bool_to_string(!current), toggled: true }
        },
        None => AutostartUpdate { value: bool_to_string(false), toggled: false },
    }
}

/// Whatever the autostart change writes reads back as a truth value, so a
/// later change or start never meets a value it cannot read.
pub proof fn lemma_autostart_written_is_readable(stored: Option<Seq<char>>)
    requires
        readable(stored),
    ensures
        readable(Some(autostart_next(stored))),
{
    let b = match stored {
        Some(s) => !bool_from_text(s).unwrap(),
        None => false,
    };
    crate::text::lemma_bool_text_round_trip(b);
}

/// Two changes of a stored autostart value give back the value stored
/// before them: the entry toggles.
pub proof fn lemma_autostart_change_twice(stored: Seq<char>)
    requires
        bool_from_text(stored) is Some,
    ensures
        autostart_next(Some(autostart_next(Some(stored)))) == stored,
{
    let b = bool_from_text(stored).unwrap();
    crate::text::lemma_bool_text_round_trip(!b);
    crate::text::lemma_bool_from_text_only_written(stored);
}

/// The stored autostart value keeps agreeing with the check mark of the "start"
/// entry: the check mark starts as what the start-up check reads from the store
/// (which writes `false` when nothing is stored), and a click flips the check
/// mark and writes a value that reads as the flipped mark.
pub proof fn lemma_autostart_tracks_check_mark(stored: Seq<char>, checked: bool)
    requires
        bool_from_text(stored) == Some(checked),
    ensures
        bool_from_text(autostart_next(Some(stored))) == Some(!checked),
{
    crate::text::lemma_bool_text_round_trip(!checked);
}

/// The first change of a missing autostart value stores `false`; the next one `true`.
pub proof fn lemma_autostart_from_missing()
    ensures
        autostart_next(None) == bool_text(false),
        autostart_next(Some(autostart_next(None))) == bool_text(true),
{
    crate::text::lemma_bool_text_round_trip(false);
}

/// What the program does with its auto-launch entry when the user ticks or
/// unticks "Autorun".
#[derive(Clone, Copy, Debug, PartialEq, Eq, Structural)]
pub enum AutorunAction {
    /// Remove the entry.
    Disable,
    /// Add the entry.
    Enable,
    /// The entry is there already; only a warning is logged.
    KeepEnabled,
}

/// The action for the wish `is_set`, given what the auto-launch entry reported
/// about itself (`None` when it could not tell).
pub open spec fn autorun_decision(is_set: bool, enabled: Option<bool>) -> AutorunAction {
    if !is_set {
        AutorunAction::Disable
    } else if enabled == Some(true) {
        AutorunAction::KeepEnabled
    } else {
        AutorunAction::Enable
    }
}

/// Whether the program starts at logon after `action`, when it did `before` that.
pub open spec fn autorun_after(action: AutorunAction, before: bool) -> bool {
    match action {
        AutorunAction::Disable => false,
        AutorunAction::Enable => true,
        AutorunAction::KeepEnabled => before,
    }
}

/// The action when the user sets "Autorun" to `is_set`; `enabled` is what
/// the auto-launch entry said of itself (`None` when it failed to tell).
pub fn autorun_change(is_set: bool, enabled: Option<bool>) -> (action: AutorunAction)
    ensures
        action == autorun_decision(is_set, enabled),
        !is_set ==> action == AutorunAction::Disable,
        is_set && enabled == Some(true) ==> action == AutorunAction::KeepEnabled,
        is_set && enabled != Some(true) ==> action == AutorunAction::Enable,
{
    if !is_set {
        return AutorunAction::Disable;
    }
    match enabled {
        Some(true) => AutorunAction::KeepEnabled,
        _ => AutorunAction::Enable,
    }
}

/// After the change, the program starts at logon exactly when the user asked
/// for it, whenever the entry reported its state truly or failed to report it.
pub proof fn lemma_autorun_change_follows_wish(is_set: bool, enabled: Option<bool>, actual: bool)
    requires
        enabled matches Some(e) ==> e == actual,
    ensures
        autorun_after(autorun_decision(is_set, enabled), actual) == is_set,
{
}

/// Unticking "Autorun" always removes the logon entry, whatever the entry said
/// of itself; ticking it adds the entry unless the entry reported itself there.
pub proof fn lemma_autorun_decision_cases(is_set: bool, enabled: Option<bool>)
    ensures
        !is_set ==> autorun_decision(is_set, enabled) == AutorunAction::Disable,
        is_set && enabled == Some(true) ==> autorun_decision(is_set, enabled)
            == AutorunAction::KeepEnabled,
        is_set && enabled != Some(true) ==> autorun_decision(is_set, enabled)
            == AutorunAction::Enable,
{
}

/// What the program learns, and must do, when it starts.
pub struct InitCheck {
    /// The program starts at logon.
    pub is_autorun: bool,
    /// The animation starts with the program.
    pub is_starting: bool,
    /// The logon entry points elsewhere than this program: enable it again.
    pub refresh_autorun: bool,
    /// The autostart value is missing: store this text (`false`).
    pub autostart_default: Option<String>,
}

/// The settings at start. `enabled` is what the auto-launch entry said of
/// itself (`None` when it failed to tell); `registered_path` the command that
/// the logon list holds for the program, if any; `app_path` the path that the
/// entry was built with; `stored_autostart` the stored autostart value, if any.
/// A stored autostart value that is no truth value makes the program panic,
/// so it is left out.
pub fn reg_init_check(
    enabled: Option<bool>,
    registered_path: Option<&str>,
    app_path: &str,
    stored_autostart: Option<&str>,
) -> (check: InitCheck)
    requires
        readable(stored_text(stored_autostart)),
    ensures
        check.is_autorun == (enabled == Some(true)),
        check.refresh_autorun == (enabled is Some && registered_path is Some
            && registered_path.unwrap()@ != app_path@),
        check.is_starting == match stored_autostart {
            Some(s) => bool_from_text(s@) == Some(true),
            None => false,
        },
        match check.autostart_default {
            Some(text) => stored_autostart is None && text@ == false_text(),
            None => stored_autostart is Some,
        },
{
    let (is_autorun, refresh_autorun) = match enabled {
        Some(value) => {
            let refresh = match registered_path {
                Some(p) => !text_equal(app_path, p),
                None => false,
            };
            (value, refresh)
        },
        None => (false, false),
    };
    let (is_starting, autostart_default) = match stored_autostart {
        Some(s) => match parse_bool(s) {
            Some(b) => (b, None),
            None => (false, None),
        },
        None => (false, Some(bool_to_string(false))),
    };
    InitCheck { is_autorun, is_starting, refresh_autorun, autostart_default }
}

} // verus!
