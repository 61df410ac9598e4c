//! The convergence interface: a goal against external state, with a status
//! probe (`met`) and a convergence action (`meet`), processed idempotently.

use vstd::prelude::*;

verus! {

/// Whether an external goal currently holds.
pub enum Status {
    Met,
    Unmet,
}

impl Status {
    pub fn is_met(&self) -> (r: bool)
        ensures
            r == (self is Met),
    {
        matches!(self, Status::Met)
    }

    pub fn is_unmet(&self) -> (r: bool)
        ensures
            r == (self is Unmet),
    {
        matches!(self, Status::Unmet)
    }
}

impl From<bool> for Status {
    fn from(b: bool) -> (r: Self)
        ensures
            r == (if b {
                Status::Met
            } else {
                Status::Unmet
            }),
    {
        if b {
            Status::Met
        } else {
            Status::Unmet
        }
    }
}

impl vstd::std_specs::convert::FromSpecImpl<bool> for Status {
    open spec fn obeys_from_spec() -> bool {
        true
    }

    open spec fn from_spec(b: bool) -> Status {
        if b {
            Status::Met
        } else {
            Status::Unmet
        }
    }
}

/// Why a `process` call failed.
pub enum DepError {
    /// The external command could not be run, or its invocation failed;
    /// the message names the command.
    Io(String),
    /// The convergence action ran, yet the status probe still reports Unmet.
    UnmetAfterMeet,
}

/// A goal against external state. `met` probes whether the goal holds;
/// `meet` performs the one effectful action that is meant to establish it.
///
/// Status probes are required to be pure and repeatable: `process` evaluates
/// `met` up to twice and uses it as its only branching signal.
pub trait Dep {
    fn met(&self) -> Result<Status, DepError>;

    fn meet(&self) -> Result<(), DepError>;

    /// Converge on the goal: return at once when it already holds (no side
    /// effects), otherwise run `meet` once and re-probe, reporting
    /// `UnmetAfterMeet` when the action did not establish what it promised.
    ///
    /// Everything here branches on what the trait's own methods return, so
    /// no contract can stand on this adapter; the pass's exact contract
    /// lives at [`crate::engine::process`], which takes every probe and
    /// action outcome as data, and the pass's decisions are the contracted
    /// [`Status::is_met`] and [`verdict`].
    fn process(&self) -> Result<(), DepError> {
        match self.met() {
            Err(e) => Err(e),
            Ok(Status::Met) => Ok(()),
            Ok(Status::Unmet) => match self.meet() {
                Err(e) => Err(e),
                Ok(()) => match self.met() {
                    Err(e) => Err(e),
                    Ok(Status::Met) => Ok(()),
                    Ok(Status::Unmet) => Err(DepError::UnmetAfterMeet),
                },
            },
        }
    }
}

/// The convergence pass's verdict on the status that counts after the
/// action ran: success exactly when the goal reports met, the
/// distinguished postcondition-violation error otherwise.
pub fn verdict(after: Status) -> (r: Result<(), DepError>)
    ensures
        (after is Met) <==> (r is Ok),
        (after is Unmet) <==> (r matches Err(e) && e is UnmetAfterMeet),
{
    match after {
        Status::Met => Ok(()),
        Status::Unmet => Err(DepError::UnmetAfterMeet),
    }
}

} // verus!
