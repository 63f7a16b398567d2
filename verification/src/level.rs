//! Severity levels, their total order, and the tokens that name them.

use crate::text::{eq_ignoring_case, same_ignoring_case};
use vstd::prelude::*;

verus! {

/// The severity of a log record, from the least to the most severe.
#[derive(Clone, Copy, Debug, PartialEq, Eq, PartialOrd, Ord, Hash, Structural)]
pub enum Level {
    Trace,
    Debug,
    Info,
    Warn,
    Error,
    Fatal,
}

/// Whether stack traces are rendered or left out.
#[derive(Clone, Copy, Debug, PartialEq, Eq, Structural)]
pub enum StackTraceMode {
    Full,
    Skip,
}

impl Level {
    /// The position of the level in the order
    /// `Trace < Debug < Info < Warn < Error < Fatal`.
    pub open spec fn rank_spec(self) -> nat {
        match self {
            Level::Trace => 0,
            Level::Debug => 1,
            Level::Info => 2,
            Level::Warn => 3,
            Level::Error => 4,
            Level::Fatal => 5,
        }
    }

    /// The canonical name of the level, as records spell it.
    pub open spec fn name_spec(self) -> Seq<char> {
        match self {
            Level::Trace => "TRACE"@,
            Level::Debug => "DEBUG"@,
            Level::Info => "INFO"@,
            Level::Warn => "WARN"@,
            Level::Error => "ERROR"@,
            Level::Fatal => "FATAL"@,
        }
    }

    /// `self` is equal to `min` or more severe.
    pub open spec fn at_least_spec(self, min: Level) -> bool {
        self.rank_spec() >= min.rank_spec()
    }

    /// The level that `token` names, if it names one: the canonical names
    /// are matched whatever the case of their letters.
    pub open spec fn from_token_spec(token: Seq<char>) -> Option<Level> {
        if same_ignoring_case(token, Level::Trace.name_spec()) {
            Some(Level::Trace)
        } else if same_ignoring_case(token, Level::Debug.name_spec()) {
            Some(Level::Debug)
        } else if same_ignoring_case(token, Level::Info.name_spec()) {
            Some(Level::Info)
        } else if same_ignoring_case(token, Level::Warn.name_spec()) {
            Some(Level::Warn)
        } else if same_ignoring_case(token, Level::Error.name_spec()) {
            Some(Level::Error)
        } else if same_ignoring_case(token, Level::Fatal.name_spec()) {
            Some(Level::Fatal)
        } else {
            None
        }
    }

    /// The position of the level in the order, 0 for `Trace` up to 5 for
    /// `Fatal`.
    pub fn rank(self) -> (r: u8)
        ensures
            r == self.rank_spec(),
    {
        match self {
            Level::Trace => 0,
            Level::Debug => 1,
            Level::Info => 2,
            Level::Warn => 3,
            Level::Error => 4,
            Level::Fatal => 5,
        }
    }

    /// The canonical name of the level.
    pub fn name(self) -> (r: &'static str)
        ensures
            r@ == self.name_spec(),
    {
        match self {
            Level::Trace => "TRACE",
            Level::Debug => "DEBUG",
            Level::Info => "INFO",
            Level::Warn => "WARN",
            Level::Error => "ERROR",
            Level::Fatal => "FATAL",
        }
    }

    /// Whether `self` is equal to `min` or more severe.
    #[verifier::when_used_as_spec(at_least_spec)]
    pub fn at_least(self, min: Level) -> (r: bool)
        ensures
            r == self.at_least_spec(min),
    {
        self.rank() >= min.rank()
    }

    /// Reads a level from its name, in any case of letters.
    pub fn from_token(token: &str) -> (r: Option<Level>)
        ensures
            r == Level::from_token_spec(token@),
    {
        if eq_ignoring_case(token, Level::Trace.name()) {
            Some(Level::Trace)
        } else if eq_ignoring_case(token, Level::Debug.name()) {
            Some(Level::Debug)
        } else if eq_ignoring_case(token, Level::Info.name()) {
            Some(Level::Info)
        } else if eq_ignoring_case(token, Level::Warn.name()) {
            Some(Level::Warn)
        } else if eq_ignoring_case(token, Level::Error.name()) {
            Some(Level::Error)
        } else if eq_ignoring_case(token, Level::Fatal.name()) {
            Some(Level::Fatal)
        } else {
            None
        }
    }
}

} // verus!
