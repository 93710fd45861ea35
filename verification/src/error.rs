use vstd::prelude::*;

verus! {

/// What can go wrong while collecting.
#[derive(Debug, Clone, PartialEq, Eq)]
pub enum CollectError {
    /// The request never produced a reply (connection failure).
    Transport(String),
    /// The source answered, but reported failure: the HTTP status outside
    /// 200..=299, or the non-zero error code of the listing's status block
    /// together with the message that came with it.
    Upstream(i32, Option<String>),
    /// The payload was malformed or did not have the expected shape; the
    /// text describes the offending region.
    Decode(String),
    /// The store rejected a point or could not be reached.
    Write(String),
    /// The process could not be put into the background.
    Supervisor(String),
}

/// How much work a failure costs.
#[derive(Debug, Clone, Copy, PartialEq, Eq, Structural)]
pub enum FailureScope {
    /// One point is skipped; the cycle goes on with the next one.
    Record,
    /// The current cycle is abandoned; the loop goes on with the next wait.
    Cycle,
    /// The process cannot run at all.
    Process,
}

impl CollectError {
    /// The scope of each kind of failure.
    pub open spec fn spec_scope(self) -> FailureScope {
        match self {
            CollectError::Write(_) => FailureScope::Record,
            CollectError::Transport(_) | CollectError::Upstream(_, _) | CollectError::Decode(_) =>
                FailureScope::Cycle,
            CollectError::Supervisor(_) => FailureScope::Process,
        }
    }

    /// Classifies this failure: a write failure costs one record, a fetch or
    /// decode failure costs the cycle, and only a supervisor failure stops
    /// the process.
    pub fn scope(&self) -> (r: FailureScope)
        ensures
            r == self.spec_scope(),
    {
        match self {
            CollectError::Write(_) => FailureScope::Record,
            CollectError::Transport(_) => FailureScope::Cycle,
            CollectError::Upstream(_, _) => FailureScope::Cycle,
            CollectError::Decode(_) => FailureScope::Cycle,
            CollectError::Supervisor(_) => FailureScope::Process,
        }
    }
}

} // verus!
