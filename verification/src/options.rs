//! The switches of a run and the policy they stand for.

use crate::level::{Level, StackTraceMode};
use crate::pipeline::{Fallback, FilterPolicy};
use vstd::prelude::*;

verus! {

/// The switches that a run is started with.
#[derive(Clone, Copy, Debug, PartialEq, Eq, Structural)]
pub struct Opt {
    /// Show only records of level `Error` or higher.
    pub error: bool,
    /// Show only records of level `Warn` or higher.
    pub warn: bool,
    /// Show only records of level `Info` or higher.
    pub info: bool,
    /// Leave out lines that are no records.
    pub logstash_only: bool,
    /// Leave out stack traces.
    pub no_stacktraces: bool,
}

impl Opt {
    /// The threshold that the switches ask for. Where several are set,
    /// `warn` goes before `error`, and `error` before `info`.
    pub open spec fn min_level_spec(self) -> Level {
        if self.warn {
            Level::Warn
        } else if self.error {
            Level::Error
        } else if self.info {
            Level::Info
        } else {
            Level::Trace
        }
    }

    /// Stack traces are rendered unless `no_stacktraces` is set.
    pub open spec fn stack_trace_mode_spec(self) -> StackTraceMode {
        if self.no_stacktraces {
            StackTraceMode::Skip
        } else {
            StackTraceMode::Full
        }
    }

    /// Lines that are no records are passed through unless `logstash_only`
    /// is set.
    pub open spec fn fallback_spec(self) -> Fallback {
        if self.logstash_only {
            Fallback::Drop
        } else {
            Fallback::PassThrough
        }
    }

    /// The policy that the switches stand for.
    pub open spec fn policy_spec(self) -> FilterPolicy {
        FilterPolicy {
            min_level: self.min_level_spec(),
            stack_trace: self.stack_trace_mode_spec(),
            fallback: self.fallback_spec(),
        }
    }

    /// The threshold that the switches ask for.
    pub fn min_level(&self) -> (r: Level)
        ensures
            r == self.min_level_spec(),
    {
        if self.warn {
            Level::Warn
        } else if self.error {
            Level::Error
        } else if self.info {
            Level::Info
        } else {
            Level::Trace
        }
    }

    /// Whether stack traces are rendered.
    pub fn stack_trace_mode(&self) -> (r: StackTraceMode)
        ensures
            r == self.stack_trace_mode_spec(),
    {
        if self.no_stacktraces {
            StackTraceMode::Skip
        } else {
            StackTraceMode::Full
        }
    }

    /// What becomes of lines that are no records.
    pub fn fallback(&self) -> (r: Fallback)
        ensures
            r == self.fallback_spec(),
    {
        if self.logstash_only {
            Fallback::Drop
        } else {
            Fallback::PassThrough
        }
    }

    /// The policy that the switches stand for.
    pub fn policy(&self) -> (r: FilterPolicy)
        ensures
            r == self.policy_spec(),
    {
        FilterPolicy {
            min_level: self.min_level(),
            stack_trace: self.stack_trace_mode(),
            fallback: self.fallback(),
        }
    }
}

} // verus!
