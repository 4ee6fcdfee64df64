//! The function table that negotiation hands over: a fixed sequence of
//! function pointers, one per operation, held here as addresses.
//!
//! The order of the fields is the order in which the debugger lays them out in
//! memory. A table of a later tier begins with the table of the tier before it.

use vstd::prelude::*;
use crate::version::Tier;

verus! {

/// One place in the function table, named by the operation whose function
/// pointer it holds. The variants stand in layout order.
#[derive(Clone, Copy, Debug, PartialEq, Eq, Hash, Structural)]
pub enum Slot {
    GetApiVersion,
    SetCaptureOptionU32,
    SetCaptureOptionF32,
    GetCaptureOptionU32,
    GetCaptureOptionF32,
    SetFocusToggleKeys,
    SetCaptureKeys,
    GetOverlayBits,
    MaskOverlayBits,
    Shutdown,
    UnloadCrashHandler,
    SetLogFilePathTemplate,
    GetLogFilePathTemplate,
    GetNumCaptures,
    GetCapture,
    TriggerCapture,
    IsTargetControlConnected,
    LaunchReplayUi,
    SetActiveWindow,
    StartFrameCapture,
    IsFrameCapturing,
    EndFrameCapture,
    TriggerMultiFrameCapture,
}

impl Slot {
    /// The position of this slot in the table, counted in function pointers
    /// from the table's start.
    pub open spec fn spec_index(self) -> usize {
        match self {
            Slot::GetApiVersion => 0,
            Slot::SetCaptureOptionU32 => 1,
            Slot::SetCaptureOptionF32 => 2,
            Slot::GetCaptureOptionU32 => 3,
            Slot::GetCaptureOptionF32 => 4,
            Slot::SetFocusToggleKeys => 5,
            Slot::SetCaptureKeys => 6,
            Slot::GetOverlayBits => 7,
            Slot::MaskOverlayBits => 8,
            Slot::Shutdown => 9,
            Slot::UnloadCrashHandler => 10,
            Slot::SetLogFilePathTemplate => 11,
            Slot::GetLogFilePathTemplate => 12,
            Slot::GetNumCaptures => 13,
            Slot::GetCapture => 14,
            Slot::TriggerCapture => 15,
            Slot::IsTargetControlConnected => 16,
            Slot::LaunchReplayUi => 17,
            Slot::SetActiveWindow => 18,
            Slot::StartFrameCapture => 19,
            Slot::IsFrameCapturing => 20,
            Slot::EndFrameCapture => 21,
            Slot::TriggerMultiFrameCapture => 22,
        }
    }

    /// The first tier whose table holds this slot.
    pub open spec fn spec_tier(self) -> Tier {
        if self == Slot::TriggerMultiFrameCapture {
            Tier::Two
        } else {
            Tier::One
        }
    }

    /// The position of this slot in the table.
    pub fn index(self) -> (i: usize)
        ensures
            i == self.spec_index(),
            i < Tier::Two.spec_slots(),
    {
        match self {
            Slot::GetApiVersion => 0,
            Slot::SetCaptureOptionU32 => 1,
            Slot::SetCaptureOptionF32 => 2,
            Slot::GetCaptureOptionU32 => 3,
            Slot::GetCaptureOptionF32 => 4,
            Slot::SetFocusToggleKeys => 5,
            Slot::SetCaptureKeys => 6,
            Slot::GetOverlayBits => 7,
            Slot::MaskOverlayBits => 8,
            Slot::Shutdown => 9,
            Slot::UnloadCrashHandler => 10,
            Slot::SetLogFilePathTemplate => 11,
            Slot::GetLogFilePathTemplate => 12,
            Slot::GetNumCaptures => 13,
            Slot::GetCapture => 14,
            Slot::TriggerCapture => 15,
            Slot::IsTargetControlConnected => 16,
            Slot::LaunchReplayUi => 17,
            Slot::SetActiveWindow => 18,
            Slot::StartFrameCapture => 19,
            Slot::IsFrameCapturing => 20,
            Slot::EndFrameCapture => 21,
            Slot::TriggerMultiFrameCapture => 22,
        }
    }

    /// The first tier whose table holds this slot.
    pub fn tier(self) -> (t: Tier)
        ensures
            t == self.spec_tier(),
            self.spec_index() < t.spec_slots(),
            t == Tier::Two ==> self.spec_index() >= Tier::One.spec_slots(),
    {
        match self {
            Slot::TriggerMultiFrameCapture => Tier::Two,
            _ => Tier::One,
        }
    }
}

/// The function table of tier one: the address of each baseline operation.
#[derive(Clone, Copy, Debug, PartialEq, Eq, Hash, Structural)]
pub struct EntryV100 {
    pub get_api_version: usize,
    pub set_capture_option_u32: usize,
    pub set_capture_option_f32: usize,
    pub get_capture_option_u32: usize,
    pub get_capture_option_f32: usize,
    pub set_focus_toggle_keys: usize,
    pub set_capture_keys: usize,
    pub get_overlay_bits: usize,
    pub mask_overlay_bits: usize,
    pub shutdown: usize,
    pub unload_crash_handler: usize,
    pub set_log_file_path_template: usize,
    pub get_log_file_path_template: usize,
    pub get_num_captures: usize,
    pub get_capture: usize,
    pub trigger_capture: usize,
    pub is_target_control_connected: usize,
    pub launch_replay_ui: usize,
    pub set_active_window: usize,
    pub start_frame_capture: usize,
    pub is_frame_capturing: usize,
    pub end_frame_capture: usize,
}

/// The function table of tier two: the table of tier one, then the address of
/// multi-frame capture.
#[derive(Clone, Copy, Debug, PartialEq, Eq, Hash, Structural)]
pub struct EntryV110 {
    pub v100: EntryV100,
    pub trigger_multi_frame_capture: usize,
}

impl EntryV100 {
    /// The table whose fields are the first 22 of `words`, in layout order.
    pub open spec fn spec_from_words(words: Seq<usize>) -> EntryV100 {
        EntryV100 {
            get_api_version: words[0],
            set_capture_option_u32: words[1],
            set_capture_option_f32: words[2],
            get_capture_option_u32: words[3],
            get_capture_option_f32: words[4],
            set_focus_toggle_keys: words[5],
            set_capture_keys: words[6],
            get_overlay_bits: words[7],
            mask_overlay_bits: words[8],
            shutdown: words[9],
            unload_crash_handler: words[10],
            set_log_file_path_template: words[11],
            get_log_file_path_template: words[12],
            get_num_captures: words[13],
            get_capture: words[14],
            trigger_capture: words[15],
            is_target_control_connected: words[16],
            launch_replay_ui: words[17],
            set_active_window: words[18],
            start_frame_capture: words[19],
            is_frame_capturing: words[20],
            end_frame_capture: words[21],
        }
    }

    /// The address that this table holds for `slot`, or `None` for a slot that
    /// a table of tier one does not have.
    pub open spec fn spec_address(self, slot: Slot) -> Option<usize> {
        match slot {
            Slot::GetApiVersion => Some(self.get_api_version),
            Slot::SetCaptureOptionU32 => Some(self.set_capture_option_u32),
            Slot::SetCaptureOptionF32 => Some(self.set_capture_option_f32),
            Slot::GetCaptureOptionU32 => Some(self.get_capture_option_u32),
            Slot::GetCaptureOptionF32 => Some(self.get_capture_option_f32),
            Slot::SetFocusToggleKeys => Some(self.set_focus_toggle_keys),
            Slot::SetCaptureKeys => Some(self.set_capture_keys),
            Slot::GetOverlayBits => Some(self.get_overlay_bits),
            Slot::MaskOverlayBits => Some(self.mask_overlay_bits),
            Slot::Shutdown => Some(self.shutdown),
            Slot::UnloadCrashHandler => Some(self.unload_crash_handler),
            Slot::SetLogFilePathTemplate => Some(self.set_log_file_path_template),
            Slot::GetLogFilePathTemplate => Some(self.get_log_file_path_template),
            Slot::GetNumCaptures => Some(self.get_num_captures),
            Slot::GetCapture => Some(self.get_capture),
            Slot::TriggerCapture => Some(self.trigger_capture),
            Slot::IsTargetControlConnected => Some(self.is_target_control_connected),
            Slot::LaunchReplayUi => Some(self.launch_replay_ui),
            Slot::SetActiveWindow => Some(self.set_active_window),
            Slot::StartFrameCapture => Some(self.start_frame_capture),
            Slot::IsFrameCapturing => Some(self.is_frame_capturing),
            Slot::EndFrameCapture => Some(self.end_frame_capture),
            Slot::TriggerMultiFrameCapture => None,
        }
    }

    /// Reads a table of tier one out of the function pointers copied from the
    /// debugger, given in layout order. There have to be as many as the tier
    /// has slots; what follows them belongs to later tiers and is not read.
    pub fn from_words(words: &[usize]) -> (entry: Option<EntryV100>)
        ensures
            entry is Some <==> words@.len() >= Tier::One.spec_slots(),
            entry matches Some(table) ==> table == EntryV100::spec_from_words(words@) && forall|
                slot: Slot,
            |
                slot.spec_tier() == Tier::One ==> #[trigger] table.spec_address(slot) == Some(
                    words@[slot.spec_index() as int],
                ),
    {
        if words.len() < 22 {
            return None;
        }
        Some(EntryV100 {
            get_api_version: words[0],
            set_capture_option_u32: words[1],
            set_capture_option_f32: words[2],
            get_capture_option_u32: words[3],
            get_capture_option_f32: words[4],
            set_focus_toggle_keys: words[5],
            set_capture_keys: words[6],
            get_overlay_bits: words[7],
            mask_overlay_bits: words[8],
            shutdown: words[9],
            unload_crash_handler: words[10],
            set_log_file_path_template: words[11],
            get_log_file_path_template: words[12],
            get_num_captures: words[13],
            get_capture: words[14],
            trigger_capture: words[15],
            is_target_control_connected: words[16],
            launch_replay_ui: words[17],
            set_active_window: words[18],
            start_frame_capture: words[19],
            is_frame_capturing: words[20],
            end_frame_capture: words[21],
        })
    }

    /// The address that this table holds for `slot`, or `None` for a slot that
    /// a table of tier one does not have.
    pub fn address(&self, slot: Slot) -> (address: Option<usize>)
        ensures
            address == self.spec_address(slot),
            address is Some <==> slot.spec_tier() == Tier::One,
    {
        match slot {
            Slot::GetApiVersion => Some(self.get_api_version),
            Slot::SetCaptureOptionU32 => Some(self.set_capture_option_u32),
            Slot::SetCaptureOptionF32 => Some(self.set_capture_option_f32),
            Slot::GetCaptureOptionU32 => Some(self.get_capture_option_u32),
            Slot::GetCaptureOptionF32 => Some(self.get_capture_option_f32),
            Slot::SetFocusToggleKeys => Some(self.set_focus_toggle_keys),
            Slot::SetCaptureKeys => Some(self.set_capture_keys),
            Slot::GetOverlayBits => Some(self.get_overlay_bits),
            Slot::MaskOverlayBits => Some(self.mask_overlay_bits),
            Slot::Shutdown => Some(self.shutdown),
            Slot::UnloadCrashHandler => Some(self.unload_crash_handler),
            Slot::SetLogFilePathTemplate => Some(self.set_log_file_path_template),
            Slot::GetLogFilePathTemplate => Some(self.get_log_file_path_template),
            Slot::GetNumCaptures => Some(self.get_num_captures),
            Slot::GetCapture => Some(self.get_capture),
            Slot::TriggerCapture => Some(self.trigger_capture),
            Slot::IsTargetControlConnected => Some(self.is_target_control_connected),
            Slot::LaunchReplayUi => Some(self.launch_replay_ui),
            Slot::SetActiveWindow => Some(self.set_active_window),
            Slot::StartFrameCapture => Some(self.start_frame_capture),
            Slot::IsFrameCapturing => Some(self.is_frame_capturing),
            Slot::EndFrameCapture => Some(self.end_frame_capture),
            Slot::TriggerMultiFrameCapture => None,
        }
    }
}

impl EntryV110 {
    /// The table whose fields are the first 23 of `words`, in layout order.
    pub open spec fn spec_from_words(words: Seq<usize>) -> EntryV110 {
        EntryV110 {
            v100: EntryV100::spec_from_words(words),
            trigger_multi_frame_capture: words[22],
        }
    }

    /// The address that this table holds for `slot`.
    pub open spec fn spec_address(self, slot: Slot) -> usize {
        match slot {
            Slot::TriggerMultiFrameCapture => self.trigger_multi_frame_capture,
            _ => self.v100.spec_address(slot).unwrap(),
        }
    }

    /// Reads a table of tier two out of the function pointers copied from the
    /// debugger, given in layout order. There have to be as many as the tier
    /// has slots.
    pub fn from_words(words: &[usize]) -> (entry: Option<EntryV110>)
        ensures
            entry is Some <==> words@.len() >= Tier::Two.spec_slots(),
            entry matches Some(table) ==> table == EntryV110::spec_from_words(words@) && forall|
                slot: Slot,
            | #[trigger]
                table.spec_address(slot) == words@[slot.spec_index() as int],
    {
        if words.len() < 23 {
            return None;
        }
        match EntryV100::from_words(words) {
            Some(v100) => Some(EntryV110 { v100, trigger_multi_frame_capture: words[22] }),
            None => None,
        }
    }

    /// The address that this table holds for `slot`.
    pub fn address(&self, slot: Slot) -> (address: usize)
        ensures
            address == self.spec_address(slot),
            slot.spec_tier() == Tier::One ==> Some(address) == self.v100.spec_address(slot),
    {
        match self.v100.address(slot) {
            Some(address) => address,
            None => self.trigger_multi_frame_capture,
        }
    }
}

/// A table of tier two begins with a table of tier one: read as tier one, the
/// same function pointers give the tier-one part of what they give read as
/// tier two, and every baseline slot holds the same address in both.
pub proof fn lemma_tier_two_table_extends_tier_one(words: Seq<usize>, slot: Slot)
    requires
        words.len() >= Tier::Two.spec_slots(),
    ensures
        EntryV110::spec_from_words(words).v100 == EntryV100::spec_from_words(
            words.subrange(0, Tier::One.spec_slots() as int),
        ),
        slot.spec_tier() == Tier::One ==> EntryV100::spec_from_words(
            words.subrange(0, Tier::One.spec_slots() as int),
        ).spec_address(slot) == Some(EntryV110::spec_from_words(words).spec_address(slot)),
{
}

/// Distinct slots lie at distinct positions, and a slot's position tells which
/// tiers hold it.
pub proof fn lemma_slots_have_their_own_positions(a: Slot, b: Slot, tier: Tier)
    ensures
        a.spec_index() == b.spec_index() ==> a == b,
        a.spec_index() < tier.spec_slots() <==> tier.spec_includes(a.spec_tier()),
{
}

} // verus!
