//! The failure taxonomy and what each class of failure does to the run.
//!
//! Setup failures (bind, connect, accepting the first chat connection) are
//! reported and end the run cleanly — never a crash, never a retry.  After
//! a session starts, an I/O failure only stops the affected task.  Text
//! that fails to decode is a reported, recoverable error.  A failed accept
//! in the request server's loop is reported and the loop goes on.

use vstd::prelude::*;

verus! {

/// The classes of failure the system distinguishes.
#[derive(Clone, Copy, Debug, PartialEq, Eq, Structural)]
pub enum Failure {
    /// Binding a listener, connecting outward, or accepting the first chat
    /// connection failed.
    Setup,
    /// A read or write on an established session failed.
    MidSessionIo,
    /// Bytes that should carry text were not valid text.
    Decode,
    /// One accept in the request server's loop failed.
    Accept,
}

/// What a failure does to the run.
#[derive(Clone, Copy, Debug, PartialEq, Eq, Structural)]
pub enum Reaction {
    /// Report to the operator and end the run cleanly; no abnormal
    /// termination, no retry, no fallback.
    ReportAndStop,
    /// The affected task stops silently; nothing is escalated and the
    /// peer is not told.
    StopTask,
    /// Surface a structured error to the caller; the process stays up.
    ReportRecoverable,
    /// Report and carry on with the next iteration.
    ReportAndContinue,
}

/// The reaction owed to each failure class.
pub open spec fn reaction_spec(f: Failure) -> Reaction {
    match f {
        Failure::Setup => Reaction::ReportAndStop,
        Failure::MidSessionIo => Reaction::StopTask,
        Failure::Decode => Reaction::ReportRecoverable,
        Failure::Accept => Reaction::ReportAndContinue,
    }
}

/// Decide what a failure does to the run.  In particular, a setup failure
/// — a port already in use, say — is reported and ends the run cleanly,
/// and no failure anywhere aborts the process.
pub fn failure_reaction(f: Failure) -> (r: Reaction)
    ensures
        r == reaction_spec(f),
{
    match f {
        Failure::Setup => Reaction::ReportAndStop,
        Failure::MidSessionIo => Reaction::StopTask,
        Failure::Decode => Reaction::ReportRecoverable,
        Failure::Accept => Reaction::ReportAndContinue,
    }
}

} // verus!
