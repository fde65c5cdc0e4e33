use fabseal_worker::RequestId;
use fabseal_worker::TryFromRequestIdError;

#[test]
fn decode_then_encode_reproduces_bytes() {
    let wire: [u8; 4] = [0xEF, 0xBE, 0xAD, 0xDE];
    let id = RequestId::from_bytes(&wire).unwrap();
    assert_eq!(id.as_bytes(), wire);
}

#[test]
fn decode_then_encode_reproduces_bytes_for_edge_values() {
    for wire in [[0u8, 0, 0, 0], [0xFF, 0xFF, 0xFF, 0xFF], [1, 0, 0, 0], [0, 0, 0, 1]] {
        let id = RequestId::from_bytes(&wire).unwrap();
        assert_eq!(id.as_bytes(), wire);
    }
}

#[test]
fn encode_then_decode_reproduces_value() {
    for value in [0u32, 1, 0xDEAD_BEEF, 0xCAFE_F00D, u32::MAX] {
        let id = RequestId::from(value);
        let wire = id.as_bytes();
        assert_eq!(RequestId::from_bytes(&wire).unwrap(), id);
    }
}

#[test]
fn encoding_is_little_endian() {
    let id = RequestId::from(0xDEAD_BEEF);
    assert_eq!(id.as_bytes(), [0xEF, 0xBE, 0xAD, 0xDE]);
}

#[test]
fn decoding_wrong_lengths_fails_with_length_error() {
    for len in [0usize, 1, 2, 3, 5, 6, 100] {
        let bytes = vec![0xABu8; len];
        match RequestId::from_bytes(&bytes) {
            Err(TryFromRequestIdError::LengthError(n)) => assert_eq!(n, len),
            other => panic!("expected a length error for length {}, got {:?}", len, other),
        }
    }
}

#[test]
fn length_error_carries_a_message() {
    let err = RequestId::from_bytes(&[1, 2, 3]).unwrap_err();
    assert_eq!(err.message(), "wrong length, expected exactly 4 bytes");
}

#[test]
fn hex_form_is_fixed_width_uppercase() {
    assert_eq!(RequestId::from(0xDEAD_BEEF).hex_string(), "DEADBEEF");
    assert_eq!(RequestId::from(0xCAFE_F00D).hex_string(), "CAFEF00D");
    assert_eq!(RequestId::from(0).hex_string(), "00000000");
    assert_eq!(RequestId::from(1).hex_string(), "00000001");
    assert_eq!(RequestId::from(u32::MAX).hex_string(), "FFFFFFFF");
    assert_eq!(RequestId::from(0x0123_4567).hex_string(), "01234567");
    assert_eq!(RequestId::from(0x89AB_CDEF).hex_string(), "89ABCDEF");
}

#[test]
fn random_identifiers_round_trip() {
    let id = RequestId::new();
    let wire = id.as_bytes();
    assert_eq!(RequestId::from_bytes(&wire).unwrap(), id);
    let hex = id.hex_string();
    assert_eq!(hex.len(), 8);
    assert!(hex.chars().all(|c| c.is_ascii_hexdigit() && !c.is_ascii_lowercase()));
    let by_default: RequestId = Default::default();
    assert_eq!(by_default.hex_string().len(), 8);
}
