//! The outcome of duplicating the process.

use vstd::prelude::*;

verus! {

/// Which process a fork attempt left the caller in. Exactly one holds after
/// any attempt.
#[derive(Clone, Copy, Debug, PartialEq, Eq)]
pub enum ProcessRole {
    /// The process that forked; a child now runs beside it.
    Parent,
    /// The new process.
    Child,
    /// The process that tried to fork; the system denied the duplication.
    Failed,
}

impl ProcessRole {
    /// The role that the value returned by the system's fork call stands
    /// for: 0 in the new process, -1 where no process was made, and the
    /// child's id in the process that forked.
    pub open spec fn of_fork(returned: i32) -> ProcessRole {
        if returned == 0 {
            ProcessRole::Child
        } else if returned == -1 {
            ProcessRole::Failed
        } else {
            ProcessRole::Parent
        }
    }

    /// Reads the value returned by the system's fork call.
    pub fn from_fork(returned: i32) -> (role: ProcessRole)
        ensures
            role == ProcessRole::of_fork(returned),
    {
        if returned == 0 {
            ProcessRole::Child
        } else if returned == -1 {
            ProcessRole::Failed
        } else {
            ProcessRole::Parent
        }
    }
}

} // verus!
