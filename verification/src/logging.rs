//! The diagnostic verbosity setting: the configured level name is matched
//! case-insensitively against the four known levels, and anything else
//! falls back to the default.

use vstd::prelude::*;

verus! {

/// The four diagnostic levels the adapter distinguishes.
#[derive(Clone, Copy, PartialEq, Eq, Structural, Debug)]
pub enum LogLevel {
    Error,
    Warn,
    Info,
    Debug,
}

/// Whether `c` matches `l` ignoring ASCII case, where `l` is a lower-case
/// letter of a level name.
pub open spec fn char_matches_ci(c: char, l: char) -> bool {
    c == l || (97 <= l as int <= 122 && c as int == l as int - 32)
}

/// Whether `s` spells `word` up to ASCII case, where `word` is all
/// lower-case.
pub open spec fn spells_ci(s: Seq<char>, word: Seq<char>) -> bool {
    s.len() == word.len() && (forall|i: int|
        0 <= i < word.len() ==> #[trigger] char_matches_ci(s[i], word[i]))
}

/// The level a configured name denotes: one of the four known names,
/// matched ignoring ASCII case, and the default level for anything else.
pub open spec fn spec_log_level(s: Seq<char>) -> LogLevel {
    if spells_ci(s, "error"@) {
        LogLevel::Error
    } else if spells_ci(s, "warn"@) {
        LogLevel::Warn
    } else if spells_ci(s, "info"@) {
        LogLevel::Info
    } else if spells_ci(s, "debug"@) {
        LogLevel::Debug
    } else {
        LogLevel::Info
    }
}

fn char_eq_ci(c: char, l: char) -> (r: bool)
    ensures
        r == char_matches_ci(c, l),
{
    let cu = c as u32;
    let lu = l as u32;
    cu == lu || (97 <= lu && lu <= 122 && cu + 32 == lu)
}

fn spells_ci_exec(s: &str, word: &str) -> (r: bool)
    ensures
        r == spells_ci(s@, word@),
{
    let n = s.unicode_len();
    if n != word.unicode_len() {
        return false;
    }
    let mut i: usize = 0;
    while i < n
        invariant
            0 <= i <= n,
            n == s@.len(),
            n == word@.len(),
            forall|j: int| 0 <= j < i ==> #[trigger] char_matches_ci(s@[j], word@[j]),
        decreases n - i,
    {
        if !char_eq_ci(s.get_char(i), word.get_char(i)) {
            return false;
        }
        i = i + 1;
    }
    true
}

/// Map the configured level name to a level: an unset name, and any name
/// that is none of the four known ones, both give the default.
pub fn log_level_of(level: Option<&str>) -> (r: LogLevel)
    ensures
        (level matches Some(s) ==> r == spec_log_level(s@)),
        (level is None ==> r == LogLevel::Info),
{
    match level {
        None => LogLevel::Info,
        Some(s) => {
            if spells_ci_exec(s, "error") {
                LogLevel::Error
            } else if spells_ci_exec(s, "warn") {
                LogLevel::Warn
            } else if spells_ci_exec(s, "info") {
                LogLevel::Info
            } else if spells_ci_exec(s, "debug") {
                LogLevel::Debug
            } else {
                LogLevel::Info
            }
        },
    }
}

} // verus!
