//! The logical power state requested for the whole run, and the error kinds
//! a run can end with.

use vstd::prelude::*;

verus! {

/// The one logical state selected for a run; every dispatch commands the
/// same state.
#[derive(Clone, Copy, PartialEq, Eq, Structural, Debug)]
pub enum LogicalState {
    Off,
    On,
    Standby,
}

/// Everything that can end a run early.
#[derive(Clone, Copy, PartialEq, Eq, Structural, Debug)]
pub enum RunError {
    /// The top-level state string was not recognised.
    ConfigError,
    /// Adapter or stream setup failed.
    AdapterError,
    /// A Generation-1 name did not end in four valid hex pairs.
    FormatError,
    /// Standby was requested against a Generation-1 device.
    UnsupportedStateError,
    /// The radio write itself failed.
    WriteError,
}

/// The ASCII code of `c` with a lower-case ASCII letter folded to upper case.
pub open spec fn upper_code(c: char) -> u32 {
    if 97 <= c as u32 && c as u32 <= 122 {
        (c as u32 - 32) as u32
    } else {
        c as u32
    }
}

/// `s` equals the upper-case keyword `kw` up to ASCII case.
pub open spec fn matches_keyword(s: Seq<char>, kw: Seq<char>) -> bool {
    s.len() == kw.len() && forall|i: int| 0 <= i < s.len() ==> upper_code(s[i]) == kw[i] as u32
}

pub open spec fn spec_parse_state(s: Seq<char>) -> Result<LogicalState, RunError> {
    if matches_keyword(s, seq!['O', 'F', 'F']) {
        Ok(LogicalState::Off)
    } else if matches_keyword(s, seq!['O', 'N']) {
        Ok(LogicalState::On)
    } else if matches_keyword(s, seq!['S', 'T', 'A', 'N', 'D', 'B', 'Y']) {
        Ok(LogicalState::Standby)
    } else {
        Err(RunError::ConfigError)
    }
}

/// `s` equals `kw` (an upper-case ASCII keyword) ignoring ASCII case.
fn matches_keyword_exec(s: &str, kw: &str) -> (b: bool)
    ensures
        b == matches_keyword(s@, kw@),
{
    let n = s.unicode_len();
    let m = kw.unicode_len();
    if n != m {
        return false;
    }
    for i in 0..n
        invariant
            n == s@.len(),
            n == kw@.len(),
            forall|j: int| 0 <= j < i ==> upper_code(s@[j]) == kw@[j] as u32,
    {
        let c = s.get_char(i) as u32;
        let folded: u32 = if 97 <= c && c <= 122 {
            c - 32
        } else {
            c
        };
        if folded != kw.get_char(i) as u32 {
            return false;
        }
    }
    true
}

/// Parse the command-line state string, case-insensitively, into the run's
/// logical state; anything but OFF, ON or STANDBY is a configuration error.
pub fn parse_state(s: &str) -> (r: Result<LogicalState, RunError>)
    ensures
        r == spec_parse_state(s@),
{
    proof {
        reveal_strlit("OFF");
        reveal_strlit("ON");
        reveal_strlit("STANDBY");
    }
    if matches_keyword_exec(s, "OFF") {
        assert(matches_keyword(s@, seq!['O', 'F', 'F']));
        Ok(LogicalState::Off)
    } else if matches_keyword_exec(s, "ON") {
        assert(matches_keyword(s@, seq!['O', 'N']));
        Ok(LogicalState::On)
    } else if matches_keyword_exec(s, "STANDBY") {
        assert(matches_keyword(s@, seq!['S', 'T', 'A', 'N', 'D', 'B', 'Y']));
        Ok(LogicalState::Standby)
    } else {
        Err(RunError::ConfigError)
    }
}

} // verus!
