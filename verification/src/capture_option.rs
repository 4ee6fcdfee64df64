//! The capture options that the debugger knows, and the number that names each
//! of them at the boundary.

use vstd::prelude::*;

verus! {

/// A capture option of the debugger.
#[derive(Clone, Copy, Debug, PartialEq, Eq, Hash, Structural)]
pub enum CaptureOption {
    /// Let the application enable vertical synchronization.
    AllowVSync,
    /// Let the application enter fullscreen mode.
    AllowFullscreen,
    /// Record API debugging events and messages.
    ApiValidation,
    /// Capture CPU callstacks for API events.
    CaptureCallstacks,
    /// When capturing CPU callstacks, only capture them from drawcalls.
    CaptureCallstacksOnlyDraws,
    /// A delay, in seconds, to wait for a debugger to attach to the
    /// application after injection.
    DelayForDebugger,
    /// Verify writes to mapped buffers by checking the memory after the
    /// bounds of the returned pointer.
    VerifyMapWrites,
    /// Hook system calls that create child processes and inject into them
    /// with the same options.
    HookIntoChildren,
    /// Reference all resources available at the time of capture.
    RefAllResources,
    /// Save the initial state of all resources, whatever their usage.
    SaveAllInitials,
    /// Capture all command lists recorded from the start of the application.
    CaptureAllCmdLists,
    /// Mute API debug output when `ApiValidation` is enabled.
    DebugOutputMute,
}

impl CaptureOption {
    /// The number that names this option at the boundary.
    pub open spec fn spec_code(self) -> u32 {
        match self {
            CaptureOption::AllowVSync => 0,
            CaptureOption::AllowFullscreen => 1,
            CaptureOption::ApiValidation => 2,
            CaptureOption::CaptureCallstacks => 3,
            CaptureOption::CaptureCallstacksOnlyDraws => 4,
            CaptureOption::DelayForDebugger => 5,
            CaptureOption::VerifyMapWrites => 6,
            CaptureOption::HookIntoChildren => 7,
            CaptureOption::RefAllResources => 8,
            CaptureOption::SaveAllInitials => 9,
            CaptureOption::CaptureAllCmdLists => 10,
            CaptureOption::DebugOutputMute => 11,
        }
    }

    /// The number that names this option at the boundary.
    pub fn code(self) -> (c: u32)
        ensures
            c == self.spec_code(),
            c <= 11,
    {
        match self {
            CaptureOption::AllowVSync => 0,
            CaptureOption::AllowFullscreen => 1,
            CaptureOption::ApiValidation => 2,
            CaptureOption::CaptureCallstacks => 3,
            CaptureOption::CaptureCallstacksOnlyDraws => 4,
            CaptureOption::DelayForDebugger => 5,
            CaptureOption::VerifyMapWrites => 6,
            CaptureOption::HookIntoChildren => 7,
            CaptureOption::RefAllResources => 8,
            CaptureOption::SaveAllInitials => 9,
            CaptureOption::CaptureAllCmdLists => 10,
            CaptureOption::DebugOutputMute => 11,
        }
    }

    /// The option that `code` names, or `None` where it names none.
    pub fn from_code(code: u32) -> (option: Option<CaptureOption>)
        ensures
            option is Some <==> code <= 11,
            option matches Some(known) ==> known.spec_code() == code,
    {
        match code {
            0 => Some(CaptureOption::AllowVSync),
            1 => Some(CaptureOption::AllowFullscreen),
            2 => Some(CaptureOption::ApiValidation),
            3 => Some(CaptureOption::CaptureCallstacks),
            4 => Some(CaptureOption::CaptureCallstacksOnlyDraws),
            5 => Some(CaptureOption::DelayForDebugger),
            6 => Some(CaptureOption::VerifyMapWrites),
            7 => Some(CaptureOption::HookIntoChildren),
            8 => Some(CaptureOption::RefAllResources),
            9 => Some(CaptureOption::SaveAllInitials),
            10 => Some(CaptureOption::CaptureAllCmdLists),
            11 => Some(CaptureOption::DebugOutputMute),
            _ => None,
        }
    }
}

/// Each option has a number of its own.
pub proof fn lemma_option_codes_are_distinct(a: CaptureOption, b: CaptureOption)
    ensures
        a.spec_code() == b.spec_code() ==> a == b,
{
}

} // verus!
