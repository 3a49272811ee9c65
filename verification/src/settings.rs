//! Display settings and their persisted two-line text form.
//!
//! The persisted form is two lines: `bars` or `percent` for the display
//! mode, then `Enable` or `Disable` for the debug toggle. Text outside
//! that vocabulary falls back to the default for the toggle concerned, and
//! encoding then decoding a settings value gives the value back.

use vstd::prelude::*;
use vstd::string::*;

use crate::text::str_range_eq;

verus! {

/// The two display preferences: progress bars versus percent numbers, and
/// whether debug information is included.
#[derive(Clone, Copy, Debug, PartialEq, Eq, Structural)]
pub struct AppSettings {
    pub show_progress_bars: bool,
    pub show_debug_info: bool,
}

/// The index of the first newline in `s` at or after `from`, or the length
/// of `s` when there is none.
pub open spec fn spec_find_newline(s: Seq<char>, from: int) -> int
    recommends
        0 <= from <= s.len(),
    decreases s.len() - from,
{
    if from < 0 || from >= s.len() {
        s.len() as int
    } else if s[from] == '\n' {
        from
    } else {
        spec_find_newline(s, from + 1)
    }
}

/// Drops a single trailing carriage return, as line splitting does.
pub open spec fn spec_strip_cr(s: Seq<char>) -> Seq<char> {
    if s.len() > 0 && s[s.len() - 1] == '\r' {
        s.drop_last()
    } else {
        s
    }
}

/// The text that persists a settings value: one line for each toggle.
pub open spec fn spec_settings_text(s: AppSettings) -> Seq<char> {
    (if s.show_progress_bars {
        "bars"@
    } else {
        "percent"@
    }) + "\n"@ + (if s.show_debug_info {
        "Enable"@
    } else {
        "Disable"@
    }) + "\n"@
}

/// The settings value read from persisted text: `bars`/`percent` choose the
/// display mode, `Enable`/`Disable` the debug toggle, and anything else
/// falls back to that toggle's default (bars on, debug off).
pub open spec fn spec_parse_settings(s: Seq<char>) -> AppSettings {
    let e1 = spec_find_newline(s, 0);
    let l1 = spec_strip_cr(s.subrange(0, e1));
    let bars = if l1 == "bars"@ {
        true
    } else if l1 == "percent"@ {
        false
    } else {
        true
    };
    let start2 = if e1 < s.len() {
        e1 + 1
    } else {
        e1
    };
    let e2 = spec_find_newline(s, start2);
    let l2 = spec_strip_cr(s.subrange(start2, e2));
    let debug = if l2 == "Enable"@ {
        true
    } else {
        false
    };
    AppSettings { show_progress_bars: bars, show_debug_info: debug }
}

impl AppSettings {
    /// The default settings: progress bars on, debug information off.
    pub fn new() -> (s: AppSettings)
        ensures
            s.show_progress_bars == true,
            s.show_debug_info == false,
    {
        AppSettings { show_progress_bars: true, show_debug_info: false }
    }

    /// Renders the settings as the persisted two-line text.
    pub fn file_text(&self) -> (r: String)
        ensures
            r@ == spec_settings_text(*self),
    {
        let mut r = if self.show_progress_bars {
            String::from_str("bars")
        } else {
            String::from_str("percent")
        };
        r.append("\n");
        if self.show_debug_info {
            r.append("Enable");
        } else {
            r.append("Disable");
        }
        r.append("\n");
        proof {
            assert(r@ =~= spec_settings_text(*self));
        }
        r
    }

    /// Reads a settings value back from persisted text.
    pub fn parse(contents: &str) -> (s: AppSettings)
        ensures
            s == spec_parse_settings(contents@),
    {
        let len = contents.unicode_len();
        let e1 = find_newline(contents, 0);
        let l1end = if e1 > 0 && contents.get_char(e1 - 1) == '\r' {
            e1 - 1
        } else {
            e1
        };
        proof {
            assert(spec_strip_cr(contents@.subrange(0, e1 as int)) =~= contents@.subrange(
                0,
                l1end as int,
            ));
        }
        let bars = if str_range_eq(contents, 0, l1end, "bars") {
            true
        } else if str_range_eq(contents, 0, l1end, "percent") {
            false
        } else {
            true
        };
        let start2 = if e1 < len {
            e1 + 1
        } else {
            e1
        };
        let e2 = find_newline(contents, start2);
        let l2end = if e2 > start2 && contents.get_char(e2 - 1) == '\r' {
            e2 - 1
        } else {
            e2
        };
        proof {
            assert(spec_strip_cr(contents@.subrange(start2 as int, e2 as int))
                =~= contents@.subrange(start2 as int, l2end as int));
        }
        let debug = str_range_eq(contents, start2, l2end, "Enable");
        AppSettings { show_progress_bars: bars, show_debug_info: debug }
    }
}

/// Finds the first newline in `s` at or after `from`.
fn find_newline(s: &str, from: usize) -> (r: usize)
    requires
        from as int <= s@.len(),
    ensures
        r == spec_find_newline(s@, from as int),
        from <= r,
        r as int <= s@.len(),
{
    let len = s.unicode_len();
    let mut i = from;
    while i < len
        invariant
            from <= i <= len,
            len as int == s@.len(),
            spec_find_newline(s@, from as int) == spec_find_newline(s@, i as int),
        decreases len - i,
    {
        if s.get_char(i) == '\n' {
            return i;
        }
        i = i + 1;
    }
    i
}

/// Encoding settings to text and parsing the text back yields the same
/// settings value, for every settings value.
pub proof fn lemma_settings_round_trip(s: AppSettings)
    ensures
        spec_parse_settings(spec_settings_text(s)) == s,
{
    reveal_strlit("bars");
    reveal_strlit("percent");
    reveal_strlit("Enable");
    reveal_strlit("Disable");
    reveal_strlit("\n");
    reveal_with_fuel(spec_find_newline, 20);
    let t = spec_settings_text(s);
    let line1 = if s.show_progress_bars {
        "bars"@
    } else {
        "percent"@
    };
    let line2 = if s.show_debug_info {
        "Enable"@
    } else {
        "Disable"@
    };
    assert(t =~= line1 + "\n"@ + line2 + "\n"@);
    let e1 = spec_find_newline(t, 0);
    assert(e1 == line1.len());
    assert(t.subrange(0, e1) =~= line1);
    let start2 = e1 + 1;
    let e2 = spec_find_newline(t, start2);
    assert(e2 == start2 + line2.len());
    assert(t.subrange(start2, e2) =~= line2);
    assert("bars"@ != "percent"@);
    assert("Enable"@ != "Disable"@);
}

} // verus!
