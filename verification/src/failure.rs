use vstd::prelude::*;

verus! {

/// Why a check task, or a comparison, did not succeed.
#[derive(Clone, Copy, Debug, PartialEq, Eq, Structural)]
pub enum Failure {
    /// The driver never accepted a connection within the deadline.
    Timeout,
    /// Allocating the port, starting or terminating the driver process failed.
    Process,
    /// A call of the remote session failed (open, navigate, query, screenshot).
    Protocol,
    /// The session's current URL differs from the expected one.
    Mismatch,
    /// A picture could not be decoded.
    Decode,
    /// The second picture has no pixel at a position of the first.
    Bounds,
    /// The task itself broke down: it faulted, or was driven out of turn.
    Fault,
}

/// What one check task reports.
#[derive(Clone, Copy, Debug, PartialEq, Eq, Structural)]
pub enum Outcome {
    Success,
    Failed(Failure),
}

impl Outcome {
    pub open spec fn is_success(self) -> bool {
        self == Outcome::Success
    }

    /// The outcome of a task that ends with `pending` as the first failure it met.
    pub open spec fn of(pending: Option<Failure>) -> Outcome {
        match pending {
            Some(f) => Outcome::Failed(f),
            None => Outcome::Success,
        }
    }

    /// Whether the task succeeded.
    pub fn succeeded(&self) -> (r: bool)
        ensures
            r == self.is_success(),
    {
        match self {
            Outcome::Success => true,
            Outcome::Failed(_) => false,
        }
    }

    /// The reason of a failed task, `None` for a successful one.
    pub fn failure(&self) -> (r: Option<Failure>)
        ensures
            Outcome::of(r) == *self,
    {
        match self {
            Outcome::Success => None,
            Outcome::Failed(f) => Some(*f),
        }
    }
}

} // verus!
