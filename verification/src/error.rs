//! What can go wrong while a process is started or stopped.

use vstd::prelude::*;
use vstd::string::*;

verus! {

/// The reason an action of the supervisor was abandoned.
#[derive(Clone, Copy, Debug, PartialEq, Eq, Structural)]
pub enum SupervisorError {
    /// The termination signal could not be delivered to the tracked process.
    TerminationFailure,
    /// The program could not be started.
    SpawnFailure,
    /// The table of stage names has no entry for the stage.
    StageLookupFailure,
}

/// The sentence that tells the user about an error.
pub open spec fn message_of(error: SupervisorError) -> Seq<char> {
    match error {
        SupervisorError::TerminationFailure => "the running process could not be stopped"@,
        SupervisorError::SpawnFailure => "the program could not be started"@,
        SupervisorError::StageLookupFailure => "there is no name for this stage"@,
    }
}

impl SupervisorError {
    /// A sentence for a status line or a dialog.
    pub fn message(&self) -> (text: String)
        ensures
            text@ == message_of(*self),
    {
        match self {
            SupervisorError::TerminationFailure => String::from_str(
                "the running process could not be stopped",
            ),
            SupervisorError::SpawnFailure => String::from_str("the program could not be started"),
            SupervisorError::StageLookupFailure => String::from_str(
                "there is no name for this stage",
            ),
        }
    }
}

} // verus!
