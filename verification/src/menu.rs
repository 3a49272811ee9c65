//! The menu state machine: interpreting user input lines as actions and
//! applying settings toggles.
//!
//! The surrounding shell reads lines and keypresses and performs the side
//! effects; the decisions — which action a line means, how a toggle changes
//! the settings, when monitoring stops — live here.

use vstd::prelude::*;

use crate::settings::AppSettings;
use crate::text::str_range_eq;

verus! {

/// What a main-menu input line asks for.
#[derive(Clone, Copy, Debug, PartialEq, Eq, Structural)]
pub enum MenuAction {
    StartAgent,
    OpenSettings,
    ShowCredits,
    GenerateDebugLog,
    ExitProgram,
    Invalid,
}

/// What a settings-menu input line asks for.
#[derive(Clone, Copy, Debug, PartialEq, Eq, Structural)]
pub enum SettingsAction {
    ToggleDisplayMode,
    ToggleDebugInfo,
    BackToMain,
    Invalid,
}

/// The whitespace characters stripped from an input line before it is
/// matched: blank, tab, carriage return and newline.
pub open spec fn spec_is_space(c: char) -> bool {
    c == ' ' || c == '\t' || c == '\r' || c == '\n'
}

/// The first index at or after `from` holding a non-whitespace character,
/// or the length of `s` when there is none.
pub open spec fn spec_scan_start(s: Seq<char>, from: int) -> int
    recommends
        0 <= from <= s.len(),
    decreases s.len() - from,
{
    if from < 0 || from >= s.len() {
        s.len() as int
    } else if spec_is_space(s[from]) {
        spec_scan_start(s, from + 1)
    } else {
        from
    }
}

/// The end (exclusive) of the last non-whitespace character strictly
/// before `upto`, or 0 when there is none.
pub open spec fn spec_scan_end(s: Seq<char>, upto: int) -> int
    recommends
        0 <= upto <= s.len(),
    decreases upto,
{
    if upto <= 0 {
        0
    } else if spec_is_space(s[upto - 1]) {
        spec_scan_end(s, upto - 1)
    } else {
        upto
    }
}

/// `s` with leading and trailing whitespace stripped.
pub open spec fn spec_trim(s: Seq<char>) -> Seq<char> {
    let a = spec_scan_start(s, 0);
    if a == s.len() {
        Seq::<char>::empty()
    } else {
        s.subrange(a, spec_scan_end(s, s.len() as int))
    }
}

/// The action a trimmed main-menu line means: the digits 1 to 5 choose the
/// five entries, anything else is invalid.
pub open spec fn spec_menu_action(s: Seq<char>) -> MenuAction {
    let t = spec_trim(s);
    if t == "1"@ {
        MenuAction::StartAgent
    } else if t == "2"@ {
        MenuAction::OpenSettings
    } else if t == "3"@ {
        MenuAction::ShowCredits
    } else if t == "4"@ {
        MenuAction::GenerateDebugLog
    } else if t == "5"@ {
        MenuAction::ExitProgram
    } else {
        MenuAction::Invalid
    }
}

/// The action a trimmed settings-menu line means: 1 toggles the display
/// mode, 2 the debug toggle, 3 goes back, anything else is invalid.
pub open spec fn spec_settings_action(s: Seq<char>) -> SettingsAction {
    let t = spec_trim(s);
    if t == "1"@ {
        SettingsAction::ToggleDisplayMode
    } else if t == "2"@ {
        SettingsAction::ToggleDebugInfo
    } else if t == "3"@ {
        SettingsAction::BackToMain
    } else {
        SettingsAction::Invalid
    }
}

/// Whether `c` is stripped as whitespace.
fn is_space(c: char) -> (r: bool)
    ensures
        r == spec_is_space(c),
{
    c == ' ' || c == '\t' || c == '\r' || c == '\n'
}

/// The bounds of the trimmed core of `s`: its start index and end index
/// (exclusive), with start equal to the length for an all-whitespace line.
fn trim_bounds(s: &str) -> (r: (usize, usize))
    ensures
        r.0 == spec_scan_start(s@, 0),
        (r.0 as int) <= s@.len(),
        (r.0 as int) < s@.len() ==> (r.1 == spec_scan_end(s@, s@.len() as int) && r.0 <= r.1
            && (r.1 as int) <= s@.len()),
{
    let len = s.unicode_len();
    let mut a: usize = 0;
    while a < len && is_space(s.get_char(a))
        invariant
            a <= len,
            len as int == s@.len(),
            spec_scan_start(s@, 0) == spec_scan_start(s@, a as int),
        decreases len - a,
    {
        a = a + 1;
    }
    if a == len {
        return (len, len);
    }
    let mut b: usize = len;
    while b > 0 && is_space(s.get_char(b - 1))
        invariant
            b <= len,
            a < b,
            a as int == spec_scan_start(s@, 0),
            a < s@.len() && !spec_is_space(s@[a as int]),
            len as int == s@.len(),
            spec_scan_end(s@, len as int) == spec_scan_end(s@, b as int),
        decreases b,
    {
        b = b - 1;
    }
    (a, b)
}

/// Interprets one main-menu input line, stripping surrounding whitespace
/// exactly as the menu shell reads it.
pub fn interpret_menu_choice(input: &str) -> (a: MenuAction)
    ensures
        a == spec_menu_action(input@),
{
    proof {
        reveal_strlit("1");
        reveal_strlit("2");
        reveal_strlit("3");
        reveal_strlit("4");
        reveal_strlit("5");
    }
    let (from, to) = trim_bounds(input);
    let len = input.unicode_len();
    if from == len {
        proof {
            assert(spec_scan_start(input@, 0) == input@.len());
            assert(spec_trim(input@) == Seq::<char>::empty());
            assert(spec_trim(input@).len() == 0);
            assert("1"@.len() == 1);
            assert(spec_trim(input@) != "1"@);
        }
        return MenuAction::Invalid;
    }
    if str_range_eq(input, from, to, "1") {
        MenuAction::StartAgent
    } else if str_range_eq(input, from, to, "2") {
        MenuAction::OpenSettings
    } else if str_range_eq(input, from, to, "3") {
        MenuAction::ShowCredits
    } else if str_range_eq(input, from, to, "4") {
        MenuAction::GenerateDebugLog
    } else if str_range_eq(input, from, to, "5") {
        MenuAction::ExitProgram
    } else {
        MenuAction::Invalid
    }
}

/// Interprets one settings-menu input line.
pub fn interpret_settings_choice(input: &str) -> (a: SettingsAction)
    ensures
        a == spec_settings_action(input@),
{
    proof {
        reveal_strlit("1");
        reveal_strlit("2");
        reveal_strlit("3");
    }
    let (from, to) = trim_bounds(input);
    let len = input.unicode_len();
    if from == len {
        proof {
            assert(spec_scan_start(input@, 0) == input@.len());
            assert(spec_trim(input@) == Seq::<char>::empty());
            assert(spec_trim(input@).len() == 0);
            assert("1"@.len() == 1);
            assert(spec_trim(input@) != "1"@);
        }
        return SettingsAction::Invalid;
    }
    if str_range_eq(input, from, to, "1") {
        SettingsAction::ToggleDisplayMode
    } else if str_range_eq(input, from, to, "2") {
        SettingsAction::ToggleDebugInfo
    } else if str_range_eq(input, from, to, "3") {
        SettingsAction::BackToMain
    } else {
        SettingsAction::Invalid
    }
}

/// Applies one settings-menu action: the two toggles flip their own flag
/// and leave the other alone; back and invalid change nothing.
pub fn apply_settings_action(settings: &mut AppSettings, action: SettingsAction)
    ensures
        action == SettingsAction::ToggleDisplayMode ==> (final(settings).show_progress_bars
            == !old(settings).show_progress_bars && final(settings).show_debug_info == old(
            settings,
        ).show_debug_info),
        action == SettingsAction::ToggleDebugInfo ==> (final(settings).show_debug_info == !old(
            settings,
        ).show_debug_info && final(settings).show_progress_bars == old(
            settings,
        ).show_progress_bars),
        (action == SettingsAction::BackToMain || action == SettingsAction::Invalid)
            ==> *final(settings) == *old(settings),
{
    match action {
        SettingsAction::ToggleDisplayMode => {
            settings.show_progress_bars = !settings.show_progress_bars;
        },
        SettingsAction::ToggleDebugInfo => {
            settings.show_debug_info = !settings.show_debug_info;
        },
        SettingsAction::BackToMain => {
        },
        SettingsAction::Invalid => {
        },
    }
}

/// Whether the monitoring loop leaves for the main menu: exactly on a 'q'
/// keypress, never on any other key or on a timeout with no key.
pub fn monitoring_should_stop(key: Option<char>) -> (r: bool)
    ensures
        r == (key == Some('q')),
{
    match key {
        Some(c) => c == 'q',
        None => false,
    }
}

} // verus!
