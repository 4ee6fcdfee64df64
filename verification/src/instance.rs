//! An instance of the API: a negotiated function table, shared by its clones,
//! and the calls that can be made through it.
//!
//! An instance makes no call itself. Each operation returns the call for the
//! embedding program to make: the address, read from the table, and the
//! arguments as they cross the boundary. What comes back is read by the
//! functions of `reply`. Which operations an instance offers is decided by the
//! revision in its type: the operations of a later tier are not there to be
//! called on an instance of an earlier one.

use vstd::prelude::*;
use vstd::string::StringSliceAdditionalSpecFns;
use std::rc::Rc;
use crate::call::{Call, DevicePointer, Request, WindowHandle};
use crate::capture_option::CaptureOption;
use crate::entry::{EntryV100, EntryV110};
use crate::input::{codes, spec_codes, InputButton};
use crate::load::{ApiVersion, Negotiated, V100, V110};
use crate::overlay::OverlayBits;
use crate::text::{c_string, is_c_string, is_text_of};

verus! {

/// How many bytes the buffer for the path of a capture has beyond the length
/// of the template for such paths.
pub const PATH_MARGIN: u32 = 128;

/// An instance of the API with minimum revision `V`.
#[derive(Debug)]
pub struct RenderDoc<V: ApiVersion> {
    api: Rc<V::Entry>,
}

impl<V: ApiVersion> RenderDoc<V> {
    /// The function table that this instance holds.
    pub closed spec fn entry(&self) -> V::Entry {
        *self.api
    }

    /// Makes an instance of a negotiated table. `negotiated` shows that the
    /// entry point reported success for revision `V`, and is used up: each
    /// instance made here stands for one negotiation of its own.
    pub fn new(negotiated: Negotiated<V>, entry: V::Entry) -> (instance: RenderDoc<V>)
        ensures
            instance.entry() == entry,
    {
        RenderDoc { api: Rc::new(entry) }
    }
}

impl<V: ApiVersion> Clone for RenderDoc<V> {
    /// Another handle to the same table. Nothing is loaded or negotiated.
    fn clone(&self) -> (copy: RenderDoc<V>)
        ensures
            copy.entry() == self.entry(),
    {
        RenderDoc { api: self.api.clone() }
    }
}

/// The capability of tier one: access to a table of the baseline operations.
pub trait RenderDocV100: Sized {
    /// The tier-one table of this instance.
    spec fn v100(&self) -> EntryV100;

    /// The tier-one table of this instance.
    fn entry_v100(&self) -> (entry: &EntryV100)
        ensures
            *entry == self.v100(),
    ;
}

/// The capability of tier two: it includes that of tier one, whose table is
/// the beginning of the table of tier two.
pub trait RenderDocV110: RenderDocV100 {
    /// The tier-two table of this instance.
    spec fn v110(&self) -> EntryV110;

    /// The tier-two table of this instance.
    fn entry_v110(&self) -> (entry: &EntryV110)
        ensures
            *entry == self.v110(),
            entry.v100 == self.v100(),
    ;
}

impl RenderDocV100 for RenderDoc<V100> {
    open spec fn v100(&self) -> EntryV100 {
        self.entry()
    }

    fn entry_v100(&self) -> (entry: &EntryV100) {
        &*self.api
    }
}

impl RenderDocV100 for RenderDoc<V110> {
    open spec fn v100(&self) -> EntryV100 {
        self.entry().v100
    }

    fn entry_v100(&self) -> (entry: &EntryV100) {
        &self.api.v100
    }
}

impl RenderDocV110 for RenderDoc<V110> {
    open spec fn v110(&self) -> EntryV110 {
        self.entry()
    }

    fn entry_v110(&self) -> (entry: &EntryV110) {
        &*self.api
    }
}

/// Instances made of the same table are the same to every operation: each
/// reads the same addresses, so that the calls of one are the calls of the
/// other.
pub proof fn lemma_same_table_same_calls(
    first: RenderDoc<V100>,
    second: RenderDoc<V100>,
    third: RenderDoc<V110>,
    fourth: RenderDoc<V110>,
)
    ensures
        first.entry() == second.entry() ==> first.v100() == second.v100(),
        third.entry() == fourth.entry() ==> third.v100() == fourth.v100() && third.v110()
            == fourth.v110(),
        third.v110().v100 == third.v100(),
{
}

impl<V: ApiVersion> RenderDoc<V> where Self: RenderDocV100 {
    /// The call that reports the revision of the API that the debugger gave.
    /// It may be later than the one requested.
    pub fn get_api_version(&self) -> (call: Call)
        ensures
            call.forwards_onto_v100(self.v100()),
            call.target == self.v100().get_api_version,
            call.request == Request::GetApiVersion,
    {
        Call { target: self.entry_v100().get_api_version, request: Request::GetApiVersion }
    }

    /// The call that sets a float option. `bits` are the bits of the value.
    pub fn set_capture_option_f32(&self, option: CaptureOption, bits: u32) -> (call: Call)
        ensures
            call.forwards_onto_v100(self.v100()),
            call.target == self.v100().set_capture_option_f32,
            call.request == (Request::SetCaptureOptionF32 { option: option.spec_code(), bits }),
    {
        Call {
            target: self.entry_v100().set_capture_option_f32,
            request: Request::SetCaptureOptionF32 { option: option.code(), bits },
        }
    }

    /// The call that sets an integer option.
    pub fn set_capture_option_u32(&self, option: CaptureOption, value: u32) -> (call: Call)
        ensures
            call.forwards_onto_v100(self.v100()),
            call.target == self.v100().set_capture_option_u32,
            call.request == (Request::SetCaptureOptionU32 { option: option.spec_code(), value }),
    {
        Call {
            target: self.entry_v100().set_capture_option_u32,
            request: Request::SetCaptureOptionU32 { option: option.code(), value },
        }
    }

    /// The call that reads a float option.
    pub fn get_capture_option_f32(&self, option: CaptureOption) -> (call: Call)
        ensures
            call.forwards_onto_v100(self.v100()),
            call.target == self.v100().get_capture_option_f32,
            call.request == (Request::GetCaptureOptionF32 { option: option.spec_code() }),
    {
        Call {
            target: self.entry_v100().get_capture_option_f32,
            request: Request::GetCaptureOptionF32 { option: option.code() },
        }
    }

    /// The call that reads an integer option.
    pub fn get_capture_option_u32(&self, option: CaptureOption) -> (call: Call)
        ensures
            call.forwards_onto_v100(self.v100()),
            call.target == self.v100().get_capture_option_u32,
            call.request == (Request::GetCaptureOptionU32 { option: option.spec_code() }),
    {
        Call {
            target: self.entry_v100().get_capture_option_u32,
            request: Request::GetCaptureOptionU32 { option: option.code() },
        }
    }

    /// The call that sets the keys which trigger a capture. The keys cross as
    /// an array of their numbers, in the given order, with the array's length.
    pub fn set_capture_keys(&self, keys: &[InputButton]) -> (call: Call)
        requires
            keys@.len() <= i32::MAX,
        ensures
            call.forwards_onto_v100(self.v100()),
            call.target == self.v100().set_capture_keys,
            call.request matches Request::SetCaptureKeys { keys: lowered, count } && lowered@
                == spec_codes(keys@) && count == keys@.len(),
    {
        let lowered: Vec<u32> = codes(keys);
        let count: i32 = lowered.len() as i32;
        Call {
            target: self.entry_v100().set_capture_keys,
            request: Request::SetCaptureKeys { keys: lowered, count },
        }
    }

    /// The call that sets the keys which move the debugger's focus between
    /// windows. The keys cross as an array of their numbers, in the given
    /// order, with the array's length.
    pub fn set_focus_toggle_keys(&self, keys: &[InputButton]) -> (call: Call)
        requires
            keys@.len() <= i32::MAX,
        ensures
            call.forwards_onto_v100(self.v100()),
            call.target == self.v100().set_focus_toggle_keys,
            call.request matches Request::SetFocusToggleKeys { keys: lowered, count } && lowered@
                == spec_codes(keys@) && count == keys@.len(),
    {
        let lowered: Vec<u32> = codes(keys);
        let count: i32 = lowered.len() as i32;
        Call {
            target: self.entry_v100().set_focus_toggle_keys,
            request: Request::SetFocusToggleKeys { keys: lowered, count },
        }
    }

    /// The call that shuts the debugger down. The debugger takes it only
    /// before any other call was made through any instance; the instance is
    /// used up.
    pub fn shutdown(self) -> (call: Call)
        ensures
            call.forwards_onto_v100(self.v100()),
            call.target == self.v100().shutdown,
            call.request == Request::Shutdown,
    {
        Call { target: self.entry_v100().shutdown, request: Request::Shutdown }
    }

    /// The call that unloads the debugger's crash handler.
    pub fn unload_crash_handler(&self) -> (call: Call)
        ensures
            call.forwards_onto_v100(self.v100()),
            call.target == self.v100().unload_crash_handler,
            call.request == Request::UnloadCrashHandler,
    {
        Call {
            target: self.entry_v100().unload_crash_handler,
            request: Request::UnloadCrashHandler,
        }
    }

    /// The call that reads the overlay bits.
    pub fn get_overlay_bits(&self) -> (call: Call)
        ensures
            call.forwards_onto_v100(self.v100()),
            call.target == self.v100().get_overlay_bits,
            call.request == Request::GetOverlayBits,
    {
        Call { target: self.entry_v100().get_overlay_bits, request: Request::GetOverlayBits }
    }

    /// The call that changes the overlay bits by the two masks.
    pub fn mask_overlay_bits(&self, and: OverlayBits, or: OverlayBits) -> (call: Call)
        ensures
            call.forwards_onto_v100(self.v100()),
            call.target == self.v100().mask_overlay_bits,
            call.request == (Request::MaskOverlayBits { and: and@, or: or@ }),
    {
        Call {
            target: self.entry_v100().mask_overlay_bits,
            request: Request::MaskOverlayBits { and: and.bits(), or: or.bits() },
        }
    }

    /// The call that reads the template for the paths of capture files.
    pub fn get_log_file_path_template(&self) -> (call: Call)
        ensures
            call.forwards_onto_v100(self.v100()),
            call.target == self.v100().get_log_file_path_template,
            call.request == Request::GetLogFilePathTemplate,
    {
        Call {
            target: self.entry_v100().get_log_file_path_template,
            request: Request::GetLogFilePathTemplate,
        }
    }

    /// The call that sets the template for the paths of capture files. The
    /// template crosses as a C string: its bytes up to the first NUL, if it
    /// has one, and the terminator.
    pub fn set_log_file_path_template(&self, path_template: &str) -> (call: Call)
        ensures
            call.forwards_onto_v100(self.v100()),
            call.target == self.v100().set_log_file_path_template,
            call.request matches Request::SetLogFilePathTemplate { path } && is_c_string(path@)
                && is_text_of(path@.drop_last(), path_template.spec_bytes()),
    {
        let path: Vec<u8> = c_string(path_template.as_bytes());
        Call {
            target: self.entry_v100().set_log_file_path_template,
            request: Request::SetLogFilePathTemplate { path },
        }
    }

    /// The call that counts the captures made so far.
    pub fn get_num_captures(&self) -> (call: Call)
        ensures
            call.forwards_onto_v100(self.v100()),
            call.target == self.v100().get_num_captures,
            call.request == Request::GetNumCaptures,
    {
        Call { target: self.entry_v100().get_num_captures, request: Request::GetNumCaptures }
    }

    /// The call that looks up the capture at `index`. The path is written to
    /// a buffer, whose capacity is the length of the template for such paths
    /// and `PATH_MARGIN` bytes more.
    pub fn get_capture(&self, index: u32, template_len: usize) -> (call: Call)
        requires
            template_len + PATH_MARGIN <= u32::MAX,
        ensures
            call.forwards_onto_v100(self.v100()),
            call.target == self.v100().get_capture,
            call.request == (Request::GetCapture {
                index,
                capacity: (template_len + PATH_MARGIN) as u32,
            }),
    {
        let capacity: u32 = template_len as u32 + PATH_MARGIN;
        Call {
            target: self.entry_v100().get_capture,
            request: Request::GetCapture { index, capacity },
        }
    }

    /// The call that captures the next frame of the active window.
    pub fn trigger_capture(&self) -> (call: Call)
        ensures
            call.forwards_onto_v100(self.v100()),
            call.target == self.v100().trigger_capture,
            call.request == Request::TriggerCapture,
    {
        Call { target: self.entry_v100().trigger_capture, request: Request::TriggerCapture }
    }

    /// The call that asks whether a replay UI is connected to this process.
    pub fn is_target_control_connected(&self) -> (call: Call)
        ensures
            call.forwards_onto_v100(self.v100()),
            call.target == self.v100().is_target_control_connected,
            call.request == Request::IsTargetControlConnected,
    {
        Call {
            target: self.entry_v100().is_target_control_connected,
            request: Request::IsTargetControlConnected,
        }
    }

    /// The call that launches the replay UI. With a command line the UI is
    /// told to connect to this process, and the command line crosses as a C
    /// string: its bytes up to the first NUL, if it has one, and the
    /// terminator. Without one the UI is not told to connect, and the empty C
    /// string crosses.
    pub fn launch_replay_ui(&self, command_line: Option<&str>) -> (call: Call)
        ensures
            call.forwards_onto_v100(self.v100()),
            call.target == self.v100().launch_replay_ui,
            call.request matches Request::LaunchReplayUi { connect, command_line: text }
                && is_c_string(text@) && (match command_line {
                Some(given) => connect == 1 && is_text_of(text@.drop_last(), given.spec_bytes()),
                None => connect == 0 && text@.len() == 1,
            }),
    {
        let target: usize = self.entry_v100().launch_replay_ui;
        match command_line {
            Some(given) => {
                let text: Vec<u8> = c_string(given.as_bytes());
                Call { target, request: Request::LaunchReplayUi { connect: 1, command_line: text } }
            },
            None => {
                let mut text: Vec<u8> = Vec::new();
                text.push(0);
                Call { target, request: Request::LaunchReplayUi { connect: 0, command_line: text } }
            },
        }
    }

    /// The call that makes a window of a device the active one.
    pub fn set_active_window(&self, device: DevicePointer, window: WindowHandle) -> (call: Call)
        ensures
            call.forwards_onto_v100(self.v100()),
            call.target == self.v100().set_active_window,
            call.request == (Request::SetActiveWindow { device, window }),
    {
        Call {
            target: self.entry_v100().set_active_window,
            request: Request::SetActiveWindow { device, window },
        }
    }

    /// The call that starts capturing the frames of a window of a device.
    pub fn start_frame_capture(&self, device: DevicePointer, window: WindowHandle) -> (call:
        Call)
        ensures
            call.forwards_onto_v100(self.v100()),
            call.target == self.v100().start_frame_capture,
            call.request == (Request::StartFrameCapture { device, window }),
    {
        Call {
            target: self.entry_v100().start_frame_capture,
            request: Request::StartFrameCapture { device, window },
        }
    }

    /// The call that asks whether frames are being captured, anywhere in the
    /// process.
    pub fn is_frame_capturing(&self) -> (call: Call)
        ensures
            call.forwards_onto_v100(self.v100()),
            call.target == self.v100().is_frame_capturing,
            call.request == Request::IsFrameCapturing,
    {
        Call { target: self.entry_v100().is_frame_capturing, request: Request::IsFrameCapturing }
    }

    /// The call that ends the capture of the frames of a window of a device.
    pub fn end_frame_capture(&self, device: DevicePointer, window: WindowHandle) -> (call: Call)
        ensures
            call.forwards_onto_v100(self.v100()),
            call.target == self.v100().end_frame_capture,
            call.request == (Request::EndFrameCapture { device, window }),
    {
        Call {
            target: self.entry_v100().end_frame_capture,
            request: Request::EndFrameCapture { device, window },
        }
    }
}

impl<V: ApiVersion> RenderDoc<V> where Self: RenderDocV110 {
    /// The call that captures the next `num_frames` frames of the active
    /// window.
    pub fn trigger_multi_frame_capture(&self, num_frames: u32) -> (call: Call)
        ensures
            call.forwards_onto_v110(self.v110()),
            call.target == self.v110().trigger_multi_frame_capture,
            call.request == (Request::TriggerMultiFrameCapture { frames: num_frames }),
    {
        Call {
            target: self.entry_v110().trigger_multi_frame_capture,
            request: Request::TriggerMultiFrameCapture { frames: num_frames },
        }
    }
}

} // verus!
