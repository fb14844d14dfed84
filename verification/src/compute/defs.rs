//! Plain-value definitions of what the host compute service hands out:
//! handles, operation kinds and process start information.

use vstd::prelude::*;

verus! {

/// An opaque native handle, held as the address the platform gave out.
pub type Handle = usize;

/// The handle that stands for "no resource": a released or never-opened handle.
pub const NULL_HANDLE: Handle = 0;

/// An opaque pointer of the caller's, kept and handed back exactly as it came.
pub type Context = usize;

/// A 32-bit unsigned platform word.
pub type DWord = u32;

/// Handle to a compute system.
pub type HcsSystemHandle = Handle;

/// Handle to a process running in a compute system.
pub type HcsProcessHandle = Handle;

/// Handle to an operation on a compute system.
pub type HcsOperationHandle = Handle;

/// The completion routine of an operation, as the address the platform calls,
/// or `None` where the operation has no routine.
pub type HcsOperationCompletion = Option<usize>;

/// Whether a handle stands for a resource that is still owned.
pub open spec fn is_live(handle: Handle) -> bool {
    handle != NULL_HANDLE
}

/// What an owner still has to close: the handle itself while it is live,
/// nothing once it was released.
pub open spec fn close_due(handle: Handle) -> Option<Handle> {
    if is_live(handle) {
        Some(handle)
    } else {
        None
    }
}

/// The request that an operation tracks.
#[derive(Debug, Clone, Copy, PartialEq, Eq, Structural)]
pub enum HcsOperationType {
    /// No request was submitted yet.
    Unset,
    Enumerate,
    Create,
    Start,
    Shutdown,
    Pause,
    Resume,
    Save,
    Terminate,
    Modify,
    GetProperties,
    CreateProcess,
    SignalProcess,
    GetProcessInfo,
    GetProcessProperties,
    ModifyProcess,
    Crash,
}

impl HcsOperationType {
    /// The number by which the platform knows this kind of request.
    pub open spec fn raw(self) -> int {
        match self {
            HcsOperationType::Unset => -1,
            HcsOperationType::Enumerate => 0,
            HcsOperationType::Create => 1,
            HcsOperationType::Start => 2,
            HcsOperationType::Shutdown => 3,
            HcsOperationType::Pause => 4,
            HcsOperationType::Resume => 5,
            HcsOperationType::Save => 6,
            HcsOperationType::Terminate => 7,
            HcsOperationType::Modify => 8,
            HcsOperationType::GetProperties => 9,
            HcsOperationType::CreateProcess => 10,
            HcsOperationType::SignalProcess => 11,
            HcsOperationType::GetProcessInfo => 12,
            HcsOperationType::GetProcessProperties => 13,
            HcsOperationType::ModifyProcess => 14,
            HcsOperationType::Crash => 15,
        }
    }

    /// The kind of request that the platform knows by `raw`, if there is one.
    pub fn from_raw(raw: i32) -> (kind: Option<HcsOperationType>)
        ensures
            kind matches Some(k) ==> k.raw() == raw,
            kind is None ==> forall|k: HcsOperationType| k.raw() != raw,
    {
        match raw {
            -1 => Some(HcsOperationType::Unset),
            0 => Some(HcsOperationType::Enumerate),
            1 => Some(HcsOperationType::Create),
            2 => Some(HcsOperationType::Start),
            3 => Some(HcsOperationType::Shutdown),
            4 => Some(HcsOperationType::Pause),
            5 => Some(HcsOperationType::Resume),
            6 => Some(HcsOperationType::Save),
            7 => Some(HcsOperationType::Terminate),
            8 => Some(HcsOperationType::Modify),
            9 => Some(HcsOperationType::GetProperties),
            10 => Some(HcsOperationType::CreateProcess),
            11 => Some(HcsOperationType::SignalProcess),
            12 => Some(HcsOperationType::GetProcessInfo),
            13 => Some(HcsOperationType::GetProcessProperties),
            14 => Some(HcsOperationType::ModifyProcess),
            15 => Some(HcsOperationType::Crash),
            _ => None,
        }
    }
}

/// Start information of a process created in a compute system.
#[derive(Debug, Clone, Copy, PartialEq, Eq, Structural)]
pub struct HcsProcessInformation {
    /// Identifier of the created process.
    pub process_id: DWord,
    /// Reserved by the platform.
    pub reserved: DWord,
    /// Handle to the standard input of the process, if requested.
    pub std_input: Handle,
    /// Handle to the standard output of the process, if requested.
    pub std_output: Handle,
    /// Handle to the standard error of the process, if requested.
    pub std_error: Handle,
}

impl Default for HcsProcessInformation {
    /// Process information that names no process and no stream.
    fn default() -> (info: Self)
        ensures
            info == (HcsProcessInformation {
                process_id: 0,
                reserved: 0,
                std_input: NULL_HANDLE,
                std_output: NULL_HANDLE,
                std_error: NULL_HANDLE,
            }),
    {
        HcsProcessInformation {
            process_id: 0,
            reserved: 0,
            std_input: NULL_HANDLE,
            std_output: NULL_HANDLE,
            std_error: NULL_HANDLE,
        }
    }
}

} // verus!
