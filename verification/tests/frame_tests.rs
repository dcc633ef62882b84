use mwatch_spoofer::checksum::transform_u32_to_array_of_u8;
use mwatch_spoofer::frame::{encode_binary, encode_message, encode_syscall};

#[test]
fn message_hi_frame() {
    let frame = encode_message(&b"Hi".to_vec());
    assert_eq!(frame, vec![0x02, 0x4e, 0x1f, 0x48, 0x69, 0x03]);
}

#[test]
fn empty_message_frame() {
    let frame = encode_message(&Vec::new());
    assert_eq!(frame, vec![0x02, 0x4e, 0x1f, 0x03]);
}

#[test]
fn syscall_frame_is_wire_identical_to_message() {
    let body = b"reboot".to_vec();
    assert_eq!(encode_syscall(&body), encode_message(&body));
}

#[test]
fn empty_binary_frame() {
    let frame = encode_binary(&Vec::new());
    let expected = vec![
        0x02, 0x41, 0x1f, 0x30, 0x30, 0x30, 0x30, 0x30, 0x30, 0x30, 0x30, 0x1f, 0x03,
    ];
    assert_eq!(frame, expected);
}

#[test]
fn binary_frame_crc_reference_value() {
    let frame = encode_binary(&b"123456789".to_vec());
    assert_eq!(&frame[3..11], b"CBF43926");
}

#[test]
fn binary_frame_layout() {
    let raw = vec![0x01, 0xab];
    let frame = encode_binary(&raw);
    assert_eq!(frame.len(), 13 + 2 * raw.len());
    assert_eq!(frame[0], 0x02);
    assert_eq!(frame[1], 0x41);
    assert_eq!(frame[2], 0x1f);
    assert_eq!(frame[11], 0x1f);
    assert_eq!(&frame[12..frame.len() - 1], b"01AB");
    assert_eq!(frame[frame.len() - 1], 0x03);
}

#[test]
fn frame_structure_samples() {
    let frames = vec![
        encode_message(&b"Hi".to_vec()),
        encode_message(&Vec::new()),
        encode_syscall(&b"time".to_vec()),
        encode_binary(&Vec::new()),
        encode_binary(&vec![0x00, 0xff, 0x42]),
    ];
    for f in frames {
        assert!(f.len() >= 4);
        assert_eq!(f[0], 0x02);
        assert_eq!(f[f.len() - 1], 0x03);
        assert!(f[1] == 0x4e || f[1] == 0x41);
        assert_eq!(f[2], 0x1f);
    }
}

#[test]
fn u32_big_endian_bytes() {
    assert_eq!(transform_u32_to_array_of_u8(0x12345678), [0x12, 0x34, 0x56, 0x78]);
    assert_eq!(transform_u32_to_array_of_u8(0), [0, 0, 0, 0]);
    assert_eq!(transform_u32_to_array_of_u8(0xffffffff), [0xff, 0xff, 0xff, 0xff]);
    assert_eq!(transform_u32_to_array_of_u8(0xcbf43926), [0xcb, 0xf4, 0x39, 0x26]);
}
