use renderdoc::reply::{
    api_version, capture, is_true, option_f32, option_set, option_u32, replay_ui, ACCEPTED,
    NO_SUCH_F32_BITS, NO_SUCH_U32, TRUE,
};
use renderdoc::Misuse;

#[test]
fn the_revision_is_taken_over_bit_for_bit() {
    assert_eq!(api_version(1, 1, 0), (1, 1, 0));
    assert_eq!(api_version(1, 4, 2), (1, 4, 2));
    assert_eq!(api_version(0, 0, 0), (0, 0, 0));
    assert_eq!(api_version(i32::MAX, 0, 0), (0x7fff_ffff, 0, 0));
    assert_eq!(api_version(-1, i32::MIN, -2), (0xffff_ffff, 0x8000_0000, 0xffff_fffe));
}

#[test]
fn only_one_status_accepts_an_option() {
    assert_eq!(ACCEPTED, 1);
    assert_eq!(option_set(1), Ok(()));
    for status in [0, 2, -1, i32::MAX, i32::MIN] {
        assert_eq!(option_set(status), Err(Misuse::Refused));
    }
}

#[test]
fn one_value_says_that_there_is_no_such_option() {
    assert_eq!(NO_SUCH_U32, u32::MAX);
    assert_eq!(option_u32(NO_SUCH_U32), Err(Misuse::NoSuchOption));
    for raw in [0, 1, 2, 0x7fff_ffff, u32::MAX - 1] {
        assert_eq!(option_u32(raw), Ok(raw));
    }
}

#[test]
fn the_most_negative_float_says_that_there_is_no_such_option() {
    assert_eq!(NO_SUCH_F32_BITS, (-f32::MAX).to_bits());
    assert_eq!(option_f32((-f32::MAX).to_bits()), Err(Misuse::NoSuchOption));
    for value in [0.0f32, -0.0, 1.0, 2.5, f32::MAX, f32::MIN_POSITIVE, f32::INFINITY, f32::NAN] {
        assert_eq!(option_f32(value.to_bits()), Ok(value.to_bits()));
    }
    assert_eq!(option_f32(f32::NEG_INFINITY.to_bits()), Ok(0xff80_0000));
    assert_eq!(option_f32(0xff7f_fffe), Ok(0xff7f_fffe));
}

#[test]
fn a_capture_is_reported_only_on_success() {
    assert_eq!(TRUE, 1);
    assert_eq!(
        capture(1, b"/tmp/app_frame3.rdc\0\0\0\0", 1_500_000_003),
        Ok(Some((String::from("/tmp/app_frame3.rdc"), 1_500_000_003)))
    );
    assert_eq!(capture(1, b"\0", 0), Ok(Some((String::new(), 0))));
    assert_eq!(capture(1, b"no terminator", u64::MAX), Ok(Some((String::from("no terminator"), u64::MAX))));
}

#[test]
fn no_capture_is_made_up() {
    for status in [0, 2, 3, u32::MAX] {
        assert_eq!(capture(status, b"/tmp/app_frame3.rdc\0", 1_500_000_003), Ok(None));
        assert_eq!(capture(status, &[0xff, 0xff], 7), Ok(None));
        assert_eq!(capture(status, b"", 0), Ok(None));
    }
}

#[test]
fn a_path_that_cannot_be_read_is_a_misuse() {
    assert_eq!(capture(1, &[0x2f, 0xff, 0], 5), Err(Misuse::UnreadableText));
    assert_eq!(capture(1, &[0xc3], 5), Err(Misuse::UnreadableText));
}

#[test]
fn only_one_means_yes() {
    assert!(is_true(1));
    for raw in [0, 2, 0x100, u32::MAX] {
        assert!(!is_true(raw));
    }
}

#[test]
fn zero_is_no_process() {
    assert_eq!(replay_ui(0), Err(()));
    assert_eq!(replay_ui(1), Ok(1));
    assert_eq!(replay_ui(4242), Ok(4242));
    assert_eq!(replay_ui(u32::MAX), Ok(u32::MAX));
}
