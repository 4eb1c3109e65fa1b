use vstd::prelude::*;

verus! {

/// The reported outcome of running one command: the raw exit code.
/// Success is derived, never stored: code 0 succeeds, anything else fails.
#[derive(Clone, Copy, PartialEq, Eq, Structural, Debug)]
pub struct ExecutionStatus {
    pub code: i32,
}

impl ExecutionStatus {
    /// Whether this status counts as success: exit code zero.
    pub open spec fn succeeded(self) -> bool {
        self.code == 0
    }

    /// Wrap a raw exit code reported by the operating system.
    pub fn from_code(code: i32) -> (s: ExecutionStatus)
        ensures
            s.code == code,
    {
        ExecutionStatus { code }
    }

    /// The synthetic succeeding status.
    pub fn ok() -> (s: ExecutionStatus)
        ensures
            s.code == 0,
            s.succeeded(),
    {
        ExecutionStatus { code: 0 }
    }

    /// The synthetic failing status used whenever a command could not run.
    pub fn failure() -> (s: ExecutionStatus)
        ensures
            s.code == 1,
            !s.succeeded(),
    {
        ExecutionStatus { code: 1 }
    }

    /// Executable success test.
    pub fn success(&self) -> (r: bool)
        ensures
            r == self.succeeded(),
    {
        self.code == 0
    }
}

/// What negation (a `!` in front of a pipeline) turns a status into:
/// a succeeding status becomes exit code 1, a failing one becomes exit code 0.
pub open spec fn negated(status: ExecutionStatus) -> ExecutionStatus {
    if status.succeeded() {
        ExecutionStatus { code: 1 }
    } else {
        ExecutionStatus { code: 0 }
    }
}

/// Negate a pipeline's final status.
pub fn negate_status(status: ExecutionStatus) -> (r: ExecutionStatus)
    ensures
        r == negated(status),
{
    if status.code == 0 {
        ExecutionStatus { code: 1 }
    } else {
        ExecutionStatus { code: 0 }
    }
}

/// Apply negation only where the pipeline carries the negation flag.
pub fn apply_negation(bang: bool, status: ExecutionStatus) -> (r: ExecutionStatus)
    ensures
        r == (if bang { negated(status) } else { status }),
{
    if bang {
        negate_status(status)
    } else {
        status
    }
}

/// The negation law: for any status code produced without negation, the
/// negated status succeeds exactly when that code is nonzero and fails
/// exactly when it is zero; and wrapping negation around negation restores
/// the original success or failure.
pub proof fn lemma_negation_law(status: ExecutionStatus)
    ensures
        negated(status).succeeded() <==> status.code != 0,
        !negated(status).succeeded() <==> status.code == 0,
        negated(negated(status)).succeeded() <==> status.succeeded(),
{
}

} // verus!
