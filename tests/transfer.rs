use dfu_nusb::adapter::{copy_response, wire_length};

#[test]
fn long_response_is_truncated_to_the_buffer() {
    let mut buffer = [0u8; 4];
    let response = [1u8, 2, 3, 4, 5, 6, 7, 8];
    let n = copy_response(&mut buffer, &response);
    assert_eq!(n, 4);
    assert_eq!(buffer, [1, 2, 3, 4]);
}

#[test]
fn short_response_fills_the_front() {
    let mut buffer = [9u8; 6];
    let response = [1u8, 2];
    let n = copy_response(&mut buffer, &response);
    assert_eq!(n, 2);
    assert_eq!(buffer, [1, 2, 9, 9, 9, 9]);
}

#[test]
fn empty_response_copies_nothing() {
    let mut buffer = [7u8; 3];
    assert_eq!(copy_response(&mut buffer, &[]), 0);
    assert_eq!(buffer, [7, 7, 7]);
}

#[test]
fn empty_buffer_takes_nothing() {
    let mut buffer: [u8; 0] = [];
    assert_eq!(copy_response(&mut buffer, &[1, 2, 3]), 0);
}

#[test]
fn wire_length_is_capped() {
    assert_eq!(wire_length(0), 0);
    assert_eq!(wire_length(2048), 2048);
    assert_eq!(wire_length(65535), 65535);
    assert_eq!(wire_length(70000), 65535);
}
