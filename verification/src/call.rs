//! A call into the function table, as a value: the address to call and the
//! arguments in the form in which they cross the boundary.

use vstd::prelude::*;
use crate::entry::{EntryV100, EntryV110, Slot};
use crate::text::is_c_string;

verus! {

/// The address of the graphics API's root handle, such as a device or a
/// context. It is handed on as it is.
pub type DevicePointer = usize;

/// The address of a window handle of the operating system. It is handed on
/// as it is.
pub type WindowHandle = usize;

/// An operation of the function table with its arguments as they cross the
/// boundary: options and keys as their numbers, text as C strings, a float as
/// its bits.
#[derive(Debug, PartialEq, Eq)]
pub enum Request {
    GetApiVersion,
    SetCaptureOptionU32 { option: u32, value: u32 },
    SetCaptureOptionF32 { option: u32, bits: u32 },
    GetCaptureOptionU32 { option: u32 },
    GetCaptureOptionF32 { option: u32 },
    SetFocusToggleKeys { keys: Vec<u32>, count: i32 },
    SetCaptureKeys { keys: Vec<u32>, count: i32 },
    GetOverlayBits,
    MaskOverlayBits { and: u32, or: u32 },
    Shutdown,
    UnloadCrashHandler,
    SetLogFilePathTemplate { path: Vec<u8> },
    GetLogFilePathTemplate,
    GetNumCaptures,
    GetCapture { index: u32, capacity: u32 },
    TriggerCapture,
    IsTargetControlConnected,
    LaunchReplayUi { connect: u32, command_line: Vec<u8> },
    SetActiveWindow { device: DevicePointer, window: WindowHandle },
    StartFrameCapture { device: DevicePointer, window: WindowHandle },
    IsFrameCapturing,
    EndFrameCapture { device: DevicePointer, window: WindowHandle },
    TriggerMultiFrameCapture { frames: u32 },
}

impl Request {
    /// The slot of the table whose function this request is for.
    pub open spec fn spec_slot(&self) -> Slot {
        match self {
            Request::GetApiVersion => Slot::GetApiVersion,
            Request::SetCaptureOptionU32 { .. } => Slot::SetCaptureOptionU32,
            Request::SetCaptureOptionF32 { .. } => Slot::SetCaptureOptionF32,
            Request::GetCaptureOptionU32 { .. } => Slot::GetCaptureOptionU32,
            Request::GetCaptureOptionF32 { .. } => Slot::GetCaptureOptionF32,
            Request::SetFocusToggleKeys { .. } => Slot::SetFocusToggleKeys,
            Request::SetCaptureKeys { .. } => Slot::SetCaptureKeys,
            Request::GetOverlayBits => Slot::GetOverlayBits,
            Request::MaskOverlayBits { .. } => Slot::MaskOverlayBits,
            Request::Shutdown => Slot::Shutdown,
            Request::UnloadCrashHandler => Slot::UnloadCrashHandler,
            Request::SetLogFilePathTemplate { .. } => Slot::SetLogFilePathTemplate,
            Request::GetLogFilePathTemplate => Slot::GetLogFilePathTemplate,
            Request::GetNumCaptures => Slot::GetNumCaptures,
            Request::GetCapture { .. } => Slot::GetCapture,
            Request::TriggerCapture => Slot::TriggerCapture,
            Request::IsTargetControlConnected => Slot::IsTargetControlConnected,
            Request::LaunchReplayUi { .. } => Slot::LaunchReplayUi,
            Request::SetActiveWindow { .. } => Slot::SetActiveWindow,
            Request::StartFrameCapture { .. } => Slot::StartFrameCapture,
            Request::IsFrameCapturing => Slot::IsFrameCapturing,
            Request::EndFrameCapture { .. } => Slot::EndFrameCapture,
            Request::TriggerMultiFrameCapture { .. } => Slot::TriggerMultiFrameCapture,
        }
    }

    /// Whether the arguments are fit to cross the boundary: a key array comes
    /// with its own length, and text is a C string.
    pub open spec fn well_formed(&self) -> bool {
        match self {
            Request::SetFocusToggleKeys { keys, count } => *count == keys@.len(),
            Request::SetCaptureKeys { keys, count } => *count == keys@.len(),
            Request::SetLogFilePathTemplate { path } => is_c_string(path@),
            Request::LaunchReplayUi { connect, command_line } => is_c_string(command_line@),
            _ => true,
        }
    }

    /// The slot of the table whose function this request is for.
    pub fn slot(&self) -> (slot: Slot)
        ensures
            slot == self.spec_slot(),
    {
        match self {
            Request::GetApiVersion => Slot::GetApiVersion,
            Request::SetCaptureOptionU32 { .. } => Slot::SetCaptureOptionU32,
            Request::SetCaptureOptionF32 { .. } => Slot::SetCaptureOptionF32,
            Request::GetCaptureOptionU32 { .. } => Slot::GetCaptureOptionU32,
            Request::GetCaptureOptionF32 { .. } => Slot::GetCaptureOptionF32,
            Request::SetFocusToggleKeys { .. } => Slot::SetFocusToggleKeys,
            Request::SetCaptureKeys { .. } => Slot::SetCaptureKeys,
            Request::GetOverlayBits => Slot::GetOverlayBits,
            Request::MaskOverlayBits { .. } => Slot::MaskOverlayBits,
            Request::Shutdown => Slot::Shutdown,
            Request::UnloadCrashHandler => Slot::UnloadCrashHandler,
            Request::SetLogFilePathTemplate { .. } => Slot::SetLogFilePathTemplate,
            Request::GetLogFilePathTemplate => Slot::GetLogFilePathTemplate,
            Request::GetNumCaptures => Slot::GetNumCaptures,
            Request::GetCapture { .. } => Slot::GetCapture,
            Request::TriggerCapture => Slot::TriggerCapture,
            Request::IsTargetControlConnected => Slot::IsTargetControlConnected,
            Request::LaunchReplayUi { .. } => Slot::LaunchReplayUi,
            Request::SetActiveWindow { .. } => Slot::SetActiveWindow,
            Request::StartFrameCapture { .. } => Slot::StartFrameCapture,
            Request::IsFrameCapturing => Slot::IsFrameCapturing,
            Request::EndFrameCapture { .. } => Slot::EndFrameCapture,
            Request::TriggerMultiFrameCapture { .. } => Slot::TriggerMultiFrameCapture,
        }
    }
}

/// One call for the embedding program to make: the function at `target`, on
/// the arguments of `request`.
#[derive(Debug, PartialEq, Eq)]
pub struct Call {
    /// The address of the function, taken from the function table.
    pub target: usize,
    /// The operation and its arguments.
    pub request: Request,
}

impl Call {
    /// Whether this call is a forward onto a table of tier one: it targets the
    /// address that the table holds for the operation of its request, and its
    /// arguments are fit to cross the boundary.
    pub open spec fn forwards_onto_v100(&self, table: EntryV100) -> bool {
        &&& table.spec_address(self.request.spec_slot()) == Some(self.target)
        &&& self.request.well_formed()
    }

    /// Whether this call is a forward onto a table of tier two.
    pub open spec fn forwards_onto_v110(&self, table: EntryV110) -> bool {
        &&& table.spec_address(self.request.spec_slot()) == self.target
        &&& self.request.well_formed()
    }
}

} // verus!
