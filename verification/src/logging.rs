//! The runtime log-severity threshold and the mapping from severity names
//! to thresholds. A pushed configuration change names its severity as a
//! string; the mapping is case-insensitive and falls back to `Info` for
//! unrecognized names instead of failing.

use vstd::prelude::*;
use vstd::string::StrSliceExecFns;
use crate::types::Ac;
use crate::yaml::{decode_ac, spec_decode_ac};

verus! {

/// The severity thresholds a log emission site compares against.
#[derive(Clone, Copy, PartialEq, Eq, Structural, Debug)]
pub enum Severity {
    Trace,
    Debug,
    Info,
    Warn,
    Error,
}

/// `s` spells the same word as `lower`, compared letter by letter where each
/// letter may take either its lower-case or its upper-case form.
pub open spec fn ci_matches(s: Seq<char>, lower: Seq<char>, upper: Seq<char>) -> bool {
    &&& s.len() == lower.len()
    &&& s.len() == upper.len()
    &&& forall|i: int| 0 <= i < s.len() ==> s[i] == lower[i] || s[i] == upper[i]
}

/// The severity threshold a name denotes: one of the five known names,
/// in any mix of upper and lower case, and `Info` for everything else.
pub open spec fn severity_of(s: Seq<char>) -> Severity {
    if ci_matches(s, "trace"@, "TRACE"@) {
        Severity::Trace
    } else if ci_matches(s, "debug"@, "DEBUG"@) {
        Severity::Debug
    } else if ci_matches(s, "info"@, "INFO"@) {
        Severity::Info
    } else if ci_matches(s, "warn"@, "WARN"@) {
        Severity::Warn
    } else if ci_matches(s, "error"@, "ERROR"@) {
        Severity::Error
    } else {
        Severity::Info
    }
}

/// A name that spells none of the five known severities denotes `Info`;
/// it is not an error.
pub proof fn lemma_unrecognized_severity_is_info(s: Seq<char>)
    requires
        !ci_matches(s, "trace"@, "TRACE"@),
        !ci_matches(s, "debug"@, "DEBUG"@),
        !ci_matches(s, "info"@, "INFO"@),
        !ci_matches(s, "warn"@, "WARN"@),
        !ci_matches(s, "error"@, "ERROR"@),
    ensures
        severity_of(s) == Severity::Info,
{
}

fn matches_ci(s: &str, lower: &str, upper: &str) -> (b: bool)
    requires
        lower@.len() == upper@.len(),
    ensures
        b == ci_matches(s@, lower@, upper@),
{
    let n = s.unicode_len();
    if n != lower.unicode_len() {
        return false;
    }
    let mut i: usize = 0;
    while i < n
        invariant
            n == s@.len(),
            n == lower@.len(),
            n == upper@.len(),
            i <= n,
            forall|j: int| 0 <= j < i ==> s@[j] == lower@[j] || s@[j] == upper@[j],
        decreases n - i,
    {
        let c = s.get_char(i);
        if c != lower.get_char(i) && c != upper.get_char(i) {
            return false;
        }
        i = i + 1;
    }
    true
}

/// Maps a severity name to its threshold, case-insensitively; an
/// unrecognized name maps to `Info`.
pub fn severity_from_str(s: &str) -> (r: Severity)
    ensures
        r == severity_of(s@),
{
    proof {
        reveal_strlit("trace");
        reveal_strlit("TRACE");
        reveal_strlit("debug");
        reveal_strlit("DEBUG");
        reveal_strlit("info");
        reveal_strlit("INFO");
        reveal_strlit("warn");
        reveal_strlit("WARN");
        reveal_strlit("error");
        reveal_strlit("ERROR");
    }
    if matches_ci(s, "trace", "TRACE") {
        Severity::Trace
    } else if matches_ci(s, "debug", "DEBUG") {
        Severity::Debug
    } else if matches_ci(s, "info", "INFO") {
        Severity::Info
    } else if matches_ci(s, "warn", "WARN") {
        Severity::Warn
    } else if matches_ci(s, "error", "ERROR") {
        Severity::Error
    } else {
        Severity::Info
    }
}

/// The mutable severity threshold shared by every log emission site.
/// The host process is expected to keep one such value behind its logging
/// pipeline's atomic reload mechanism, so that a swap is observed whole.
pub struct LogControl {
    pub level: Severity,
}

impl LogControl {
    pub fn new(level: Severity) -> (c: LogControl)
        ensures
            c.level == level,
    {
        LogControl { level }
    }

    /// Replaces the threshold used by all emission sites from now on.
    pub fn set_level(&mut self, level: Severity)
        ensures
            final(self).level == level,
    {
        self.level = level;
    }

    pub fn current(&self) -> (l: Severity)
        ensures
            l == self.level,
    {
        self.level
    }
}

/// Applies a decoded configuration to the threshold: the new threshold is
/// exactly what the payload's severity name denotes.
pub fn apply_decoded_change(ctrl: &mut LogControl, ac: &Ac)
    ensures
        final(ctrl).level == severity_of(ac.application.log.level@),
{
    let level = severity_from_str(ac.application.log.level.as_str());
    ctrl.set_level(level);
}

/// The outcome of one delivered change notification.
#[derive(Clone, Copy, PartialEq, Eq, Structural, Debug)]
pub enum ChangeOutcome {
    Applied(Severity),
    Rejected,
}

/// Handles one pushed configuration change: a payload that decodes whole
/// is applied — the threshold becomes exactly what its severity name
/// denotes — and a payload that fails to decode is dropped: the previous
/// threshold is retained unchanged, and nothing is partially overwritten.
pub fn on_config_change(ctrl: &mut LogControl, payload: &str) -> (o: ChangeOutcome)
    ensures
        o == ChangeOutcome::Rejected <==> spec_decode_ac(payload@) is Err,
        o == ChangeOutcome::Rejected ==> *final(ctrl) == *old(ctrl),
        o matches ChangeOutcome::Applied(l) ==> (final(ctrl).level == l && (spec_decode_ac(
            payload@,
        ) matches Ok(m) && l == severity_of(m.log.level))),
{
    match decode_ac(payload) {
        Ok(ac) => {
            apply_decoded_change(ctrl, &ac);
            ChangeOutcome::Applied(ctrl.current())
        },
        Err(_) => ChangeOutcome::Rejected,
    }
}

} // verus!
