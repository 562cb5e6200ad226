//! What a build attempt produced, and what the operator is told about it.

use vstd::prelude::*;

verus! {

/// How one invocation of the compile operation ended.
#[derive(Clone, Copy, Debug, PartialEq, Eq, Structural)]
pub enum CompileStatus {
    /// The compiler produced its artifacts.
    Succeeded,
    /// The compiler ran and reported an error.
    Failed,
    /// The compile operation itself broke down before it could report.
    Crashed,
}

/// Result of one build attempt, as the coordinator sees it.
///
/// Exactly one is produced for every launched build, whatever became of the
/// compile operation.
#[derive(Clone, Copy, Debug, PartialEq, Eq, Structural)]
pub struct BuildOutcome {
    pub succeeded: bool,
}

impl BuildOutcome {
    /// The outcome that stands for `status`: success only for a compile
    /// operation that succeeded, failure for every other ending.
    pub open spec fn of(status: CompileStatus) -> BuildOutcome {
        BuildOutcome { succeeded: status == CompileStatus::Succeeded }
    }

    /// The one outcome that a build delivers, whichever way its compile
    /// operation ended.
    pub fn from_status(status: CompileStatus) -> (outcome: BuildOutcome)
        ensures
            outcome == BuildOutcome::of(status),
    {
        match status {
            CompileStatus::Succeeded => BuildOutcome { succeeded: true },
            CompileStatus::Failed => BuildOutcome { succeeded: false },
            CompileStatus::Crashed => BuildOutcome { succeeded: false },
        }
    }
}

/// A line of operator-visible output.
#[derive(Clone, Copy, Debug, PartialEq, Eq, Structural)]
pub enum Notice {
    /// A build is about to be dispatched.
    BuildStarting,
    /// The build that was in flight succeeded.
    BuildSucceeded,
    /// The build that was in flight failed.
    BuildFailed,
}

impl Notice {
    /// The notice that reports `outcome`.
    pub open spec fn reporting(outcome: BuildOutcome) -> Notice {
        if outcome.succeeded {
            Notice::BuildSucceeded
        } else {
            Notice::BuildFailed
        }
    }

    /// The text of each notice.
    pub open spec fn spec_text(self) -> Seq<char> {
        match self {
            Notice::BuildStarting => "Building shader..."@,
            Notice::BuildSucceeded => "Build complete!"@,
            Notice::BuildFailed => "Build failed!"@,
        }
    }

    /// The notice that reports `outcome`.
    pub fn for_outcome(outcome: BuildOutcome) -> (notice: Notice)
        ensures
            notice == Notice::reporting(outcome),
    {
        if outcome.succeeded {
            Notice::BuildSucceeded
        } else {
            Notice::BuildFailed
        }
    }

    /// The text shown to the operator.
    pub fn text(&self) -> (text: &'static str)
        ensures
            text@ == self.spec_text(),
    {
        match self {
            Notice::BuildStarting => "Building shader...",
            Notice::BuildSucceeded => "Build complete!",
            Notice::BuildFailed => "Build failed!",
        }
    }

    /// Whether the notice reports a failure, and so belongs on the error
    /// channel rather than the informational one.
    pub fn is_error(&self) -> (error: bool)
        ensures
            error <==> *self == Notice::BuildFailed,
    {
        match self {
            Notice::BuildFailed => true,
            _ => false,
        }
    }
}

} // verus!
