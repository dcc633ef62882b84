use mwatch_spoofer::hex::{hex_decode, hex_encode};

#[test]
fn hex_round_trip_samples() {
    let samples: Vec<Vec<u8>> = vec![
        vec![],
        vec![0x00],
        vec![0xff],
        vec![0x12, 0x34, 0xab, 0xcd],
        (0u8..=255u8).collect(),
    ];
    for b in samples {
        let encoded = hex_encode(&b);
        let decoded = hex_decode(&encoded).expect("encoder output must decode");
        assert_eq!(decoded, b);
    }
}

#[test]
fn hex_encode_uppercase_and_length() {
    let b: Vec<u8> = (0u8..=255u8).collect();
    let encoded = hex_encode(&b);
    assert_eq!(encoded.len(), 2 * b.len());
    for c in &encoded {
        assert!(c.is_ascii_digit() || (b'A'..=b'F').contains(c));
    }
}

#[test]
fn hex_encode_known_values() {
    assert_eq!(hex_encode(&vec![0x00]), b"00".to_vec());
    assert_eq!(hex_encode(&vec![0xde, 0xad, 0xbe, 0xef]), b"DEADBEEF".to_vec());
    assert_eq!(hex_encode(&vec![]), Vec::<u8>::new());
}

#[test]
fn hex_encode_matches_outside_encoder() {
    let b: Vec<u8> = (0u8..=255u8).collect();
    let mut reference = vec![0u8; 2 * b.len()];
    simple_hex::bytes_to_hex(&b, &mut reference).unwrap();
    assert_eq!(hex_encode(&b), reference);
}

#[test]
fn hex_decode_rejects_odd_length() {
    assert_eq!(hex_decode(&vec![b'A']), None);
    assert_eq!(hex_decode(&vec![b'1', b'2', b'3']), None);
}

#[test]
fn hex_decode_rejects_bad_characters() {
    assert_eq!(hex_decode(&vec![b'a', b'b']), None);
    assert_eq!(hex_decode(&vec![b'G', b'0']), None);
    assert_eq!(hex_decode(&vec![b'0', b' ']), None);
}

#[test]
fn hex_decode_known_values() {
    assert_eq!(hex_decode(&b"DEADBEEF".to_vec()), Some(vec![0xde, 0xad, 0xbe, 0xef]));
    assert_eq!(hex_decode(&Vec::new()), Some(Vec::new()));
}
