use batrachia::base::{Identifier, NativeHandle, OwnedHandle};
use batrachia::error::RtcError;

#[test]
fn acquire_appends_the_terminator() {
    let handle = OwnedHandle::acquire("s1").unwrap();
    assert_eq!(handle.as_bytes(), &[b's', b'1', 0]);
}

#[test]
fn acquire_of_empty_text_is_the_terminator_alone() {
    let handle = OwnedHandle::acquire("").unwrap();
    assert_eq!(handle.as_bytes(), &[0u8]);
}

#[test]
fn acquire_encodes_text_outside_ascii() {
    let handle = OwnedHandle::acquire("\u{e9}").unwrap();
    assert_eq!(handle.as_bytes(), &[0xc3u8, 0xa9, 0]);
}

#[test]
fn acquire_rejects_an_embedded_zero_byte() {
    assert_eq!(OwnedHandle::acquire("a\0b").err(), Some(RtcError::EncodingError));
    assert_eq!(OwnedHandle::acquire("\0").err(), Some(RtcError::EncodingError));
    assert_eq!(OwnedHandle::acquire("ab\0").err(), Some(RtcError::EncodingError));
}

#[test]
fn a_handle_is_released_once() {
    let handle = OwnedHandle::acquire("track").unwrap();
    handle.release();
}

#[test]
fn identifier_keeps_text_and_buffer_together() {
    let name = Identifier::new("video_track").unwrap();
    assert_eq!(name.as_str(), "video_track");
    let mut expected = "video_track".as_bytes().to_vec();
    expected.push(0);
    assert_eq!(name.raw().as_bytes(), expected.as_slice());
    name.release();
}

#[test]
fn identifier_rejects_an_embedded_zero_byte() {
    assert_eq!(Identifier::new("bad\0name").err(), Some(RtcError::EncodingError));
}

#[test]
fn native_handle_is_never_zero() {
    assert!(NativeHandle::from_raw(0).is_none());
    let handle = NativeHandle::from_raw(0xdead_beef).unwrap();
    assert_eq!(handle.address(), 0xdead_beef);
    assert_eq!(NativeHandle::from_raw(u64::MAX).unwrap().address(), u64::MAX);
}
