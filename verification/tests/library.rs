use renderdoc::shader::SHADER_MAGIC_DEBUG_VALUE_BYTE_ARRAY as BYTES;
use renderdoc::{
    ApiVersion, LibraryHandle, LoadError, Start, SHADER_MAGIC_DEBUG_VALUE_TRUNCATED, V100, V110,
};

#[test]
fn a_new_record_holds_no_attempt() {
    let handle = LibraryHandle::new();
    assert!(!handle.is_tried());
    assert_eq!(handle.library(), None);
    assert_eq!(handle.failure(), None);
}

#[test]
fn the_first_outcome_is_kept() {
    let mut handle = LibraryHandle::new();
    handle.record(Ok(0x51));
    assert!(handle.is_tried());
    assert_eq!(handle.library(), Some(0x51));
    assert_eq!(handle.failure(), None);

    handle.record(Ok(0x52));
    assert_eq!(handle.library(), Some(0x51));
    handle.record(Err(String::from("too late")));
    assert_eq!(handle.library(), Some(0x51));
    assert_eq!(handle.failure(), None);
}

#[test]
fn the_first_failure_is_kept() {
    let mut handle = LibraryHandle::new();
    handle.record(Err(String::from("not found")));
    assert!(handle.is_tried());
    assert_eq!(handle.library(), None);
    assert_eq!(handle.failure(), Some(String::from("not found")));

    handle.record(Ok(0x52));
    handle.record(Err(String::from("another reason")));
    assert_eq!(handle.library(), None);
    assert_eq!(handle.failure(), Some(String::from("not found")));
}

#[test]
fn loading_begins_by_what_the_record_holds() {
    let mut handle = LibraryHandle::new();
    assert!(matches!(V100::load(&handle), Start::Open));
    assert!(matches!(V110::load(&handle), Start::Open));
    assert!(!handle.is_tried());

    handle.record(Ok(0x51));
    match V110::load(&handle) {
        Start::Resolve(resolution) => {
            assert_eq!(resolution.library(), 0x51);
            assert_eq!(resolution.symbol(), "RENDERDOC_GetAPI");
        }
        other => panic!("the library is loaded: {:?}", other),
    }

    let mut failed = LibraryHandle::new();
    failed.record(Err(String::from("wrong architecture")));
    match V100::load(&failed) {
        Start::Failed(error) => {
            assert_eq!(error, LoadError::Library(String::from("wrong architecture")));
            assert_eq!(error.message(), "load failed: wrong architecture");
        }
        other => panic!("the library is not loaded: {:?}", other),
    }
}

fn resolve<V: ApiVersion>(handle: &LibraryHandle) -> renderdoc::Resolution<V> {
    match V::load(handle) {
        Start::Resolve(resolution) => resolution,
        _ => panic!("the library is loaded"),
    }
}

#[test]
fn the_requested_code_is_that_of_the_version() {
    let mut handle = LibraryHandle::new();
    handle.record(Ok(0x51));
    let negotiation = resolve::<V100>(&handle).resolved(Ok(0x9000)).expect("found");
    assert_eq!(negotiation.entry_point(), 0x9000);
    assert_eq!(negotiation.requested(), 10000);
    let negotiation = resolve::<V110>(&handle).resolved(Ok(0x9008)).expect("found");
    assert_eq!(negotiation.entry_point(), 0x9008);
    assert_eq!(negotiation.requested(), 10100);
}

#[test]
fn only_one_status_is_success() {
    let mut handle = LibraryHandle::new();
    handle.record(Ok(0x51));
    for status in [0, 2, -1, i32::MAX, i32::MIN] {
        let negotiation = resolve::<V110>(&handle).resolved(Ok(0x9000)).expect("found");
        assert_eq!(negotiation.answered(status).err(), Some(LoadError::Incompatible));
    }
    let negotiation = resolve::<V100>(&handle).resolved(Ok(0x9000)).expect("found");
    assert_eq!(negotiation.answered(1).expect("negotiated").slots(), 22);
    let negotiation = resolve::<V110>(&handle).resolved(Ok(0x9000)).expect("found");
    assert_eq!(negotiation.answered(1).expect("negotiated").slots(), 23);
}

#[test]
fn a_missing_symbol_ends_the_attempt() {
    let mut handle = LibraryHandle::new();
    handle.record(Ok(0x51));
    let error = resolve::<V100>(&handle)
        .resolved(Err(String::from("symbol not found")))
        .err()
        .expect("not found");
    assert_eq!(error, LoadError::EntryPoint(String::from("symbol not found")));
    assert_eq!(error.message(), "negotiation entry point missing: symbol not found");
    assert_eq!(error.clone(), error);
}

#[test]
fn each_error_has_its_message() {
    assert_eq!(LoadError::Library(String::new()).message(), "load failed: ");
    assert_eq!(LoadError::Library(String::from("x")).message(), "load failed: x");
    assert_eq!(
        LoadError::EntryPoint(String::from("y")).message(),
        "negotiation entry point missing: y"
    );
    assert_eq!(LoadError::Incompatible.message(), "Compatible API version not available.");
    assert_eq!(LoadError::Incompatible.clone(), LoadError::Incompatible);
    assert_eq!(LoadError::Library(String::from("x")).clone(), LoadError::Library(String::from("x")));
}

#[test]
fn the_truncated_magic_value_is_the_first_half() {
    assert_eq!(
        BYTES,
        [
            0x20, 0x55, 0xb2, 0xea, 0x70, 0x66, 0x65, 0x48, 0x84, 0x29, 0x6c, 0x08, 0x51, 0x54,
            0x00, 0xff
        ]
    );
    let mut first_half = [0u8; 8];
    first_half.copy_from_slice(&BYTES[..8]);
    assert_eq!(SHADER_MAGIC_DEBUG_VALUE_TRUNCATED, u64::from_le_bytes(first_half));
    assert_eq!(SHADER_MAGIC_DEBUG_VALUE_TRUNCATED, 0x4865_6670_eab2_5520);
}
