//! What the debugger's answers mean.
//!
//! Each function here takes the raw values that a call brought back and says
//! what the caller is to make of them. Some answers are given only to a caller
//! that broke the debugger's rules. They come out as a `Misuse`, which is not
//! meant to be handled: the embedding program ends on it.

use vstd::prelude::*;
use crate::call::Request;
use crate::capture_option::CaptureOption;
use crate::text::{is_readable, reads_as, string_before_nul};

verus! {

/// The status that stands for "true" and for "done".
pub const TRUE: u32 = 1;

/// The status with which the debugger accepts an option and its value.
pub const ACCEPTED: i32 = 1;

/// What the debugger returns for an integer option that it does not know.
pub const NO_SUCH_U32: u32 = 0xFFFF_FFFF;

/// The bits of what the debugger returns for a float option that it does not
/// know: the most negative finite `f32`.
pub const NO_SUCH_F32_BITS: u32 = 0xFF7F_FFFF;

/// An answer that the debugger gives only to a caller that broke its rules.
#[derive(Clone, Copy, Debug, PartialEq, Eq, Hash, Structural)]
pub enum Misuse {
    /// The debugger refused an option, or the value given for it.
    Refused,
    /// The debugger does not know the option that was asked for.
    NoSuchOption,
    /// The debugger handed out text that is not valid UTF-8.
    UnreadableText,
}

/// The revision that the debugger reports, from the three integers that it
/// wrote. Each is taken over bit for bit.
pub fn api_version(major: i32, minor: i32, patch: i32) -> (version: (u32, u32, u32))
    ensures
        version.0 == major as u32,
        version.1 == minor as u32,
        version.2 == patch as u32,
        major >= 0 ==> version.0 == major,
        minor >= 0 ==> version.1 == minor,
        patch >= 0 ==> version.2 == patch,
{
    (
        #[verifier::truncate]
        (major as u32),
        #[verifier::truncate]
        (minor as u32),
        #[verifier::truncate]
        (patch as u32),
    )
}

/// Whether an option was set, from the status that setting it returned. Any
/// status but `ACCEPTED` says that the option or its value was invalid.
pub fn option_set(status: i32) -> (done: Result<(), Misuse>)
    ensures
        done is Ok <==> status == ACCEPTED,
        done matches Err(misuse) ==> misuse == Misuse::Refused,
{
    if status == ACCEPTED {
        Ok(())
    } else {
        Err(Misuse::Refused)
    }
}

/// What reading an option gives: the raw value as it is, unless it is the
/// value by which the debugger says that there is no such option.
pub open spec fn option_value(raw: u32, no_such: u32) -> Result<u32, Misuse> {
    if raw == no_such {
        Err(Misuse::NoSuchOption)
    } else {
        Ok(raw)
    }
}

/// The value of an integer option, from what reading it returned.
/// `NO_SUCH_U32` says that there is no such option.
pub fn option_u32(raw: u32) -> (value: Result<u32, Misuse>)
    ensures
        value == option_value(raw, NO_SUCH_U32),
{
    if raw == NO_SUCH_U32 {
        Err(Misuse::NoSuchOption)
    } else {
        Ok(raw)
    }
}

/// The bits of the value of a float option, from the bits of what reading it
/// returned. `NO_SUCH_F32_BITS` says that there is no such option. No other
/// bit pattern compares equal to that value, so the test on the bits is the
/// test on the floats.
pub fn option_f32(bits: u32) -> (value: Result<u32, Misuse>)
    ensures
        value == option_value(bits, NO_SUCH_F32_BITS),
{
    if bits == NO_SUCH_F32_BITS {
        Err(Misuse::NoSuchOption)
    } else {
        Ok(bits)
    }
}

/// The template for the paths of capture files, from the bytes at the address
/// that the debugger returned: the text before the first NUL, copied into a
/// string of its own.
pub fn log_file_path_template(bytes: &[u8]) -> (template: Result<String, Misuse>)
    ensures
        template is Ok <==> is_readable(bytes@),
        template matches Ok(text) ==> reads_as(bytes@, text@),
        template matches Err(misuse) ==> misuse == Misuse::UnreadableText,
{
    match string_before_nul(bytes) {
        Some(text) => Ok(text),
        None => Err(Misuse::UnreadableText),
    }
}

/// The capture at an index, from what the lookup brought back: its status, the
/// buffer that it filled with the path, and the time that it wrote.
///
/// On any status but `TRUE` there is no capture to report, whatever the buffer
/// holds: the index was out of range, or the lookup failed. On `TRUE` the
/// record is the path in the buffer and the time, as they were written.
pub fn capture(status: u32, path: &[u8], timestamp: u64) -> (record: Result<
    Option<(String, u64)>,
    Misuse,
>)
    ensures
        status != TRUE ==> record matches Ok(None),
        status == TRUE && is_readable(path@) ==> (record matches Ok(Some(found)) && reads_as(
            path@,
            found.0@,
        ) && found.1 == timestamp),
        status == TRUE && !is_readable(path@) ==> record matches Err(Misuse::UnreadableText),
{
    if status != TRUE {
        Ok(None)
    } else {
        match string_before_nul(path) {
            Some(text) => Ok(Some((text, timestamp))),
            None => Err(Misuse::UnreadableText),
        }
    }
}

/// Whether a yes-or-no query was answered with yes: with `TRUE` and nothing
/// else.
pub fn is_true(raw: u32) -> (yes: bool)
    ensures
        yes == (raw == TRUE),
{
    raw == TRUE
}

/// The process id of the replay UI, from what launching it returned: zero
/// says that the launch failed.
pub fn replay_ui(pid: u32) -> (launched: Result<u32, ()>)
    ensures
        pid == 0 ==> launched is Err,
        pid != 0 ==> launched == Ok::<u32, ()>(pid),
{
    if pid == 0 {
        Err(())
    } else {
        Ok(pid)
    }
}

/// The options of a debugger that keeps what it is given, by their numbers:
/// what they hold after `request` was carried out on `options`. Requests that
/// set no option change nothing.
pub open spec fn options_after(options: Map<u32, u32>, request: Request) -> Map<u32, u32> {
    match request {
        Request::SetCaptureOptionU32 { option, value } => options.insert(option, value),
        Request::SetCaptureOptionF32 { option, bits } => options.insert(option, bits),
        _ => options,
    }
}

/// What a debugger that holds `options` returns for a request that reads
/// `option`.
pub open spec fn option_read(options: Map<u32, u32>, option: u32) -> u32 {
    options[option]
}

/// An option that is set and then read gives the value that was set, for
/// every option and every value but the one by which the debugger says that
/// there is no such option; and setting one option leaves what is read of
/// every other as it was. This holds of a debugger that keeps a value as it
/// is given: the requests name the option by the same number, no two options
/// share a number, and the value crosses unchanged both ways.
pub proof fn lemma_option_set_is_option_read(
    options: Map<u32, u32>,
    option: CaptureOption,
    other: CaptureOption,
    value: u32,
)
    requires
        value != NO_SUCH_U32,
        value != NO_SUCH_F32_BITS,
    ensures
        option_value(
            option_read(
                options_after(
                    options,
                    Request::SetCaptureOptionU32 { option: option.spec_code(), value },
                ),
                option.spec_code(),
            ),
            NO_SUCH_U32,
        ) == Ok::<u32, Misuse>(value),
        option_value(
            option_read(
                options_after(
                    options,
                    Request::SetCaptureOptionF32 { option: option.spec_code(), bits: value },
                ),
                option.spec_code(),
            ),
            NO_SUCH_F32_BITS,
        ) == Ok::<u32, Misuse>(value),
        other != option ==> option_read(
            options_after(
                options,
                Request::SetCaptureOptionU32 { option: option.spec_code(), value },
            ),
            other.spec_code(),
        ) == option_read(options, other.spec_code()),
{
}

} // verus!
