use orbiter::{debug_string_bytes, InstanceHandle};

#[test]
fn short_message_gains_only_the_terminator() {
    let payload = debug_string_bytes(&b"hello".to_vec());
    assert_eq!(payload, b"hello\0".to_vec());
}

#[test]
fn empty_message_is_just_the_terminator() {
    let payload = debug_string_bytes(&Vec::new());
    assert_eq!(payload, vec![0u8]);
}

#[test]
fn long_message_is_clipped_to_exactly_255_bytes() {
    let message = vec![b'x'; 1000];
    let payload = debug_string_bytes(&message);
    assert_eq!(payload.len(), 256);
    assert_eq!(&payload[..255], &message[..255]);
    assert_eq!(payload[255], 0);
}

#[test]
fn boundary_message_of_255_bytes_is_kept_whole() {
    let message = vec![b'y'; 255];
    let payload = debug_string_bytes(&message);
    assert_eq!(payload.len(), 256);
    assert_eq!(&payload[..255], &message[..]);
    assert_eq!(payload[255], 0);
}

#[test]
fn embedded_zero_cuts_the_message() {
    let payload = debug_string_bytes(&b"ab\0cd".to_vec());
    assert_eq!(payload, b"ab\0".to_vec());
}

#[test]
fn payload_never_holds_an_interior_zero() {
    let mut message = vec![b'z'; 300];
    message[280] = 0;
    let payload = debug_string_bytes(&message);
    assert_eq!(payload.len(), 256);
    assert!(payload[..255].iter().all(|&b| b != 0));
}

#[test]
fn instance_handle_round_trips() {
    let h = InstanceHandle::from(0xBEE5);
    assert_eq!(h.into_raw(), 0xBEE5);
    assert_eq!(h, InstanceHandle::from(0xBEE5));
}
