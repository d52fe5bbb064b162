//! The launch side of the supervisor: the process-creation flags the
//! single spawn attempt must carry, and the error that a failed attempt
//! surfaces through the modal dialog.
//!
//! The spawn itself is an operating-system call and lives in the binary;
//! it hands the failure reason back here as a plain string.

use vstd::prelude::*;
use vstd::string::StringExecFns;

verus! {

/// Creation flag: the child gets no console window of its own.
pub const CREATE_NO_WINDOW: u32 = 0x0800_0000;

/// Creation flag: the child is detached from the launcher's console and
/// session, so it survives the launcher independently.
pub const DETACHED_PROCESS: u32 = 0x0000_0008;

/// Creation flag: the child roots a new process group, so console control
/// signals do not propagate between launcher and child.
pub const CREATE_NEW_PROCESS_GROUP: u32 = 0x0000_0200;

/// The flags the single spawn attempt is made with: all three creation
/// behaviors, and nothing else, are present in the combined value.
pub fn creation_flags() -> (r: u32)
    ensures
        r == (CREATE_NO_WINDOW | DETACHED_PROCESS | CREATE_NEW_PROCESS_GROUP),
        r & CREATE_NO_WINDOW == CREATE_NO_WINDOW,
        r & DETACHED_PROCESS == DETACHED_PROCESS,
        r & CREATE_NEW_PROCESS_GROUP == CREATE_NEW_PROCESS_GROUP,
{
    proof {
        assert(0x0800_0000u32 | 0x0000_0008u32 | 0x0000_0200u32 == 0x0800_0208u32) by (bit_vector);
        assert(0x0800_0208u32 & 0x0800_0000u32 == 0x0800_0000u32) by (bit_vector);
        assert(0x0800_0208u32 & 0x0000_0008u32 == 0x0000_0008u32) by (bit_vector);
        assert(0x0800_0208u32 & 0x0000_0200u32 == 0x0000_0200u32) by (bit_vector);
    }
    CREATE_NO_WINDOW | DETACHED_PROCESS | CREATE_NEW_PROCESS_GROUP
}

/// The fixed text that precedes the failure reason in the dialog.
pub open spec fn failure_prefix() -> Seq<char> {
    "Failed to launch Houdini Indie:\n\n"@
}

/// Builds the dialog text for a failed spawn: the fixed prefix followed by
/// the reason the operating system reported.
pub fn launch_failure_message(reason: &str) -> (r: String)
    ensures
        r@ == failure_prefix() + reason@,
{
    let mut m = String::from_str("Failed to launch Houdini Indie:\n\n");
    m.append(reason);
    m
}

/// A failed spawn attempt: the reason the operating system gave for it.
pub struct LaunchError {
    pub reason: String,
}

impl LaunchError {
    /// Wraps the failure reason the operating system reported.
    pub fn new(reason: String) -> (e: LaunchError)
        ensures
            e.reason@ == reason@,
    {
        LaunchError { reason }
    }

    /// The text the failure dialog shows for this error: the fixed prefix,
    /// then the reason.
    pub fn dialog_message(&self) -> (r: String)
        ensures
            r@ == failure_prefix() + self.reason@,
    {
        launch_failure_message(self.reason.as_str())
    }
}

} // verus!
