use renderdoc::input::codes;
use renderdoc::overlay::{
    OVERLAY_ALL, OVERLAY_CAPTURE_LIST, OVERLAY_DEFAULT, OVERLAY_ENABLED, OVERLAY_FRAME_NUMBER,
    OVERLAY_FRAME_RATE, OVERLAY_NONE,
};
use renderdoc::{CaptureOption, InputButton, OverlayBits};

#[test]
fn each_option_has_its_code() {
    assert_eq!(CaptureOption::AllowVSync.code(), 0);
    assert_eq!(CaptureOption::AllowFullscreen.code(), 1);
    assert_eq!(CaptureOption::ApiValidation.code(), 2);
    assert_eq!(CaptureOption::CaptureCallstacks.code(), 3);
    assert_eq!(CaptureOption::CaptureCallstacksOnlyDraws.code(), 4);
    assert_eq!(CaptureOption::DelayForDebugger.code(), 5);
    assert_eq!(CaptureOption::VerifyMapWrites.code(), 6);
    assert_eq!(CaptureOption::HookIntoChildren.code(), 7);
    assert_eq!(CaptureOption::RefAllResources.code(), 8);
    assert_eq!(CaptureOption::SaveAllInitials.code(), 9);
    assert_eq!(CaptureOption::CaptureAllCmdLists.code(), 10);
    assert_eq!(CaptureOption::DebugOutputMute.code(), 11);
}

#[test]
fn a_code_leads_back_to_its_option() {
    for code in 0..=11 {
        let option = CaptureOption::from_code(code).expect("a known option");
        assert_eq!(option.code(), code);
    }
    assert_eq!(CaptureOption::from_code(5), Some(CaptureOption::DelayForDebugger));
    assert_eq!(CaptureOption::from_code(12), None);
    assert_eq!(CaptureOption::from_code(u32::MAX), None);
}

#[test]
fn digits_and_letters_have_their_ascii_codes() {
    assert_eq!(InputButton::Key0.code(), '0' as u32);
    assert_eq!(InputButton::Key9.code(), '9' as u32);
    assert_eq!(InputButton::A.code(), 'A' as u32);
    assert_eq!(InputButton::M.code(), 'M' as u32);
    assert_eq!(InputButton::Z.code(), 'Z' as u32);
    for byte in (b'0'..=b'9').chain(b'A'..=b'Z') {
        let key = InputButton::from_ascii(byte).expect("a digit or a letter");
        assert_eq!(key.code(), byte as u32);
    }
    for byte in [0u8, b' ', b'/', b':', b'@', b'[', b'a', b'z', 0x7f, 0xff] {
        assert_eq!(InputButton::from_ascii(byte), None);
    }
}

#[test]
fn the_other_keys_are_numbered_from_0x100() {
    let keys = [
        InputButton::NonPrintable,
        InputButton::Divide,
        InputButton::Multiply,
        InputButton::Subtract,
        InputButton::Plus,
        InputButton::F1,
        InputButton::F2,
        InputButton::F3,
        InputButton::F4,
        InputButton::F5,
        InputButton::F6,
        InputButton::F7,
        InputButton::F8,
        InputButton::F9,
        InputButton::F10,
        InputButton::F11,
        InputButton::F12,
        InputButton::Home,
        InputButton::End,
        InputButton::Insert,
        InputButton::Delete,
        InputButton::PageUp,
        InputButton::PageDn,
        InputButton::Backspace,
        InputButton::Tab,
        InputButton::PrtScrn,
        InputButton::Pause,
        InputButton::Max,
    ];
    for (offset, key) in keys.iter().enumerate() {
        assert_eq!(key.code(), 0x100 + offset as u32);
    }
    assert_eq!(InputButton::F12.code(), 0x110);
    assert_eq!(InputButton::Max.code(), 0x11b);
}

#[test]
fn keys_are_lowered_in_order() {
    assert_eq!(codes(&[]), Vec::<u32>::new());
    assert_eq!(codes(&[InputButton::F1]), vec![0x105]);
    assert_eq!(
        codes(&[InputButton::Z, InputButton::Key1, InputButton::Z, InputButton::Pause]),
        vec![0x5a, 0x31, 0x5a, 0x11a]
    );
}

#[test]
fn the_overlay_bits_have_their_values() {
    assert_eq!(OVERLAY_ENABLED, 0x1);
    assert_eq!(OVERLAY_FRAME_RATE, 0x2);
    assert_eq!(OVERLAY_FRAME_NUMBER, 0x4);
    assert_eq!(OVERLAY_CAPTURE_LIST, 0x8);
    assert_eq!(OVERLAY_DEFAULT, 0x1 | 0x2 | 0x4 | 0x8);
    assert_eq!(OVERLAY_ALL, u32::MAX);
    assert_eq!(OVERLAY_NONE, 0);
    assert_eq!(OverlayBits::enabled().bits(), 0x1);
    assert_eq!(OverlayBits::frame_rate().bits(), 0x2);
    assert_eq!(OverlayBits::frame_number().bits(), 0x4);
    assert_eq!(OverlayBits::capture_list().bits(), 0x8);
    assert_eq!(OverlayBits::default().bits(), 0xf);
    assert_eq!(OverlayBits::all().bits(), u32::MAX);
    assert_eq!(OverlayBits::none().bits(), 0);
}

#[test]
fn overlay_bits_are_a_set() {
    let default = OverlayBits::default();
    let named = OverlayBits::enabled()
        .union(OverlayBits::frame_rate())
        .union(OverlayBits::frame_number())
        .union(OverlayBits::capture_list());
    assert_eq!(named, default);
    assert!(default.contains(OverlayBits::frame_number()));
    assert!(default.contains(OverlayBits::none()));
    assert!(!OverlayBits::enabled().contains(default));
    assert!(OverlayBits::all().contains(OverlayBits::from_bits(0x8000_0010)));
    assert!(OverlayBits::none().is_empty());
    assert!(!OverlayBits::enabled().is_empty());
    assert_eq!(default.intersection(OverlayBits::from_bits(0x16)).bits(), 0x6);
    assert_eq!(default.difference(OverlayBits::from_bits(0x16)).bits(), 0x9);
    assert_eq!(OverlayBits::from_bits(0x30).union(OverlayBits::from_bits(0x3)).bits(), 0x33);
    assert_eq!(OverlayBits::from_bits(0xabcd_0123).bits(), 0xabcd_0123);
}
