use renderdoc::reply;
use renderdoc::text::{c_string, string_before_nul, text_before_nul};
use renderdoc::Misuse;

#[test]
fn text_ends_at_the_first_nul() {
    assert_eq!(text_before_nul(b"abc\0def\0"), b"abc".to_vec());
    assert_eq!(text_before_nul(b"abc\0"), b"abc".to_vec());
    assert_eq!(text_before_nul(b"abc"), b"abc".to_vec());
    assert_eq!(text_before_nul(b"\0abc"), Vec::<u8>::new());
    assert_eq!(text_before_nul(b""), Vec::<u8>::new());
    assert_eq!(text_before_nul(&[0, 0, 0]), Vec::<u8>::new());
    assert_eq!(text_before_nul(&[0xff, 0xfe, 0, 1]), vec![0xff, 0xfe]);
}

#[test]
fn a_c_string_is_the_text_and_one_nul() {
    assert_eq!(c_string(b"abc"), b"abc\0".to_vec());
    assert_eq!(c_string(b""), b"\0".to_vec());
    assert_eq!(c_string(b"\0"), b"\0".to_vec());
    assert_eq!(c_string(b"a\0b"), b"a\0".to_vec());
    assert_eq!(c_string(b"a\0b\0"), b"a\0".to_vec());
}

#[test]
fn a_c_string_stays_as_it_is() {
    for given in [&b"abc\0"[..], &b"\0"[..], &b"/some/path with spaces\0"[..]] {
        assert_eq!(c_string(given), given.to_vec());
    }
}

#[test]
fn what_goes_in_comes_out() {
    for text in [&b""[..], &b"x"[..], &b"captures/frame"[..], "caf\u{e9}".as_bytes()] {
        assert_eq!(text_before_nul(&c_string(text)), text.to_vec());
    }
}

#[test]
fn a_string_is_the_text_decoded() {
    assert_eq!(string_before_nul(b"abc\0def"), Some(String::from("abc")));
    assert_eq!(string_before_nul(b"abc"), Some(String::from("abc")));
    assert_eq!(string_before_nul(b"\0"), Some(String::new()));
    assert_eq!(string_before_nul(b""), Some(String::new()));
    assert_eq!(
        string_before_nul(&[0x63, 0x61, 0x66, 0xc3, 0xa9, 0, 0xff]),
        Some(String::from("caf\u{e9}"))
    );
    assert_eq!(
        string_before_nul(&[0xe2, 0x82, 0xac, 0xf0, 0x9f, 0x98, 0x80]),
        Some(String::from("\u{20ac}\u{1f600}"))
    );
}

#[test]
fn text_that_is_not_utf8_is_no_string() {
    assert_eq!(string_before_nul(&[0xff, 0]), None);
    assert_eq!(string_before_nul(&[0x61, 0xc3]), None);
    assert_eq!(string_before_nul(&[0xc3, 0, 0xa9]), None);
    assert_eq!(string_before_nul(&[0xed, 0xa0, 0x80]), None);
    assert_eq!(string_before_nul(&[0xc0, 0x80]), None);
    assert_eq!(string_before_nul(&[0, 0xff]), Some(String::new()));
}

#[test]
fn the_path_template_is_copied_out() {
    assert_eq!(
        reply::log_file_path_template(b"/tmp/captures/app\0\xaa\xaa"),
        Ok(String::from("/tmp/captures/app"))
    );
    assert_eq!(reply::log_file_path_template(b"\0"), Ok(String::new()));
    assert_eq!(reply::log_file_path_template(&[0x80, 0]), Err(Misuse::UnreadableText));
}
