//! The tri-state answer of a probe.

use vstd::prelude::*;

verus! {

/// What a probe found.
///
/// `Positive`: a sign of analysis was found. `Negative`: the signal was read
/// and is clean. `Indeterminate`: the signal could not be read; this is an
/// answer of its own and is never folded into `Negative`.
#[derive(Clone, Copy, Debug, PartialEq, Eq, Structural)]
pub enum ProbeResult {
    Positive,
    Negative,
    Indeterminate,
}

impl ProbeResult {
    /// The answer as an optional flag: `Some(true)` for `Positive`,
    /// `Some(false)` for `Negative`, `None` for `Indeterminate`.
    pub open spec fn as_option(self) -> Option<bool> {
        match self {
            ProbeResult::Positive => Some(true),
            ProbeResult::Negative => Some(false),
            ProbeResult::Indeterminate => None,
        }
    }

    /// The answer that an optional flag stands for.
    pub open spec fn of_option(flag: Option<bool>) -> ProbeResult {
        match flag {
            Some(true) => ProbeResult::Positive,
            Some(false) => ProbeResult::Negative,
            None => ProbeResult::Indeterminate,
        }
    }

    /// The definite answer that a flag stands for.
    pub open spec fn of_flag(flag: bool) -> ProbeResult {
        if flag {
            ProbeResult::Positive
        } else {
            ProbeResult::Negative
        }
    }

    /// How close an answer is to `Positive`: an answer may move from
    /// `Negative` to `Positive`, and from any answer to itself.
    pub open spec fn at_most(self, other: ProbeResult) -> bool {
        self == other || (self == ProbeResult::Negative && other == ProbeResult::Positive)
    }

    pub fn from_flag(flag: bool) -> (r: ProbeResult)
        ensures
            r == ProbeResult::of_flag(flag),
    {
        if flag {
            ProbeResult::Positive
        } else {
            ProbeResult::Negative
        }
    }

    pub fn from_option(flag: Option<bool>) -> (r: ProbeResult)
        ensures
            r == ProbeResult::of_option(flag),
    {
        match flag {
            Some(true) => ProbeResult::Positive,
            Some(false) => ProbeResult::Negative,
            None => ProbeResult::Indeterminate,
        }
    }

    pub fn to_option(self) -> (r: Option<bool>)
        ensures
            r == self.as_option(),
    {
        match self {
            ProbeResult::Positive => Some(true),
            ProbeResult::Negative => Some(false),
            ProbeResult::Indeterminate => None,
        }
    }

    pub fn is_positive(self) -> (r: bool)
        ensures
            r == (self == ProbeResult::Positive),
    {
        match self {
            ProbeResult::Positive => true,
            _ => false,
        }
    }

    pub fn is_negative(self) -> (r: bool)
        ensures
            r == (self == ProbeResult::Negative),
    {
        match self {
            ProbeResult::Negative => true,
            _ => false,
        }
    }

    pub fn is_indeterminate(self) -> (r: bool)
        ensures
            r == (self == ProbeResult::Indeterminate),
    {
        match self {
            ProbeResult::Indeterminate => true,
            _ => false,
        }
    }
}

/// Converting an answer to an optional flag and back gives the answer, and
/// the other way round.
pub proof fn lemma_option_round_trip(r: ProbeResult, flag: Option<bool>)
    ensures
        ProbeResult::of_option(r.as_option()) == r,
        ProbeResult::of_option(flag).as_option() == flag,
{
}

} // verus!
