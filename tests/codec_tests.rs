use parcl_v3_client::codec::{
    decode_address_map, decode_addresses, decode_base64, decode_i128, decode_u128, decode_u16,
    decode_u32, decode_u64, encode_addresses, encode_base64, encode_optional_u64,
    encode_signed, encode_unsigned, Address, CodecError,
};

const SAMPLE_TEXT: &str = "2gPihUTjt3FJqf1VpidgrY5cZ6PuyMccGVwQHRfjMPZG";
const SAMPLE_BYTES: [u8; 32] = [
    24, 243, 6, 223, 230, 153, 210, 8, 92, 137, 123, 67, 164, 197, 79, 196, 125, 43, 183, 85, 103,
    91, 232, 167, 73, 131, 104, 131, 0, 101, 214, 231,
];

#[test]
fn unsigned_round_trip_at_boundaries() {
    for v in [0u64, 1, 9, 10, 12345, u64::MAX] {
        let text = encode_unsigned(v as u128);
        assert_eq!(text, v.to_string());
        assert_eq!(decode_u64(&text).unwrap(), v);
    }
    let text = encode_unsigned(u128::MAX);
    assert_eq!(text, "340282366920938463463374607431768211455");
    assert_eq!(decode_u128(&text).unwrap(), u128::MAX);
}

#[test]
fn signed_round_trip_at_boundaries() {
    for v in [0i128, -1, 7, -12345, i64::MAX as i128, i128::MAX, i128::MIN] {
        let text = encode_signed(v);
        assert_eq!(text, v.to_string());
        assert_eq!(decode_i128(&text).unwrap(), v);
    }
    assert_eq!(encode_signed(i128::MIN), "-170141183460469231731687303715884105728");
}

#[test]
fn integer_parsing_follows_std() {
    assert_eq!(decode_u64("+42").unwrap(), 42);
    assert_eq!(decode_u64("007").unwrap(), 7);
    assert_eq!(decode_i128("-0").unwrap(), 0);
    assert_eq!(decode_u16("65535").unwrap(), 65535);
    assert!(decode_u16("65536").is_err());
    assert_eq!(decode_u32("4294967295").unwrap(), u32::MAX);
    assert!(decode_u32("4294967296").is_err());
    assert!(decode_u64("18446744073709551616").is_err());
    assert!(decode_i128("170141183460469231731687303715884105728").is_err());
    assert!(decode_i128("-170141183460469231731687303715884105729").is_err());
    for bad in ["", "+", "-", "-5x", "1 2", "abc", "+-1"] {
        assert!(decode_i128(bad).is_err(), "{bad}");
    }
    match decode_u64("12a") {
        Err(CodecError::InvalidInteger { text }) => assert_eq!(text, "12a"),
        other => panic!("unexpected {other:?}"),
    }
    assert!(decode_u64("-1").is_err());
}

#[test]
fn optional_u64_encodes_to_text_or_null() {
    assert_eq!(encode_optional_u64(Some(12345)), Some("12345".to_string()));
    assert_eq!(encode_optional_u64(None), None);
}

#[test]
fn base64_round_trip() {
    assert_eq!(encode_base64(&b"hello".to_vec()), "aGVsbG8=");
    assert_eq!(decode_base64("aGVsbG8=").unwrap(), b"hello".to_vec());
    for bytes in [vec![], vec![0u8], vec![255u8, 0, 128, 7], (0..=255).collect::<Vec<u8>>()] {
        let text = encode_base64(&bytes);
        assert_eq!(decode_base64(&text).unwrap(), bytes);
    }
    assert_eq!(encode_base64(&vec![]), "");
}

#[test]
fn base64_rejects_invalid_text() {
    match decode_base64("not base64!") {
        Err(CodecError::InvalidBase64 { text }) => assert_eq!(text, "not base64!"),
        other => panic!("unexpected {other:?}"),
    }
    assert!(decode_base64("aGVsbG8").is_err());
}

#[test]
fn address_text_round_trip() {
    let a = Address { bytes: SAMPLE_BYTES };
    assert_eq!(a.to_text(), SAMPLE_TEXT);
    assert_eq!(Address::from_text(SAMPLE_TEXT).unwrap(), a);
    let zero = Address { bytes: [0; 32] };
    assert_eq!(zero.to_text(), "11111111111111111111111111111111");
    assert_eq!(Address::from_text(&zero.to_text()).unwrap(), zero);
}

#[test]
fn address_rejects_invalid_text() {
    for bad in ["", "0OIl", "1111", "2gPihUTjt3FJqf1VpidgrY5cZ6PuyMccGVwQHRfjMPZG2"] {
        match Address::from_text(bad) {
            Err(CodecError::InvalidAddress { text }) => assert_eq!(text, bad),
            other => panic!("unexpected {other:?}"),
        }
    }
}

#[test]
fn address_lists_round_trip_and_fail_on_first_bad_entry() {
    let list = vec![Address { bytes: SAMPLE_BYTES }, Address { bytes: [0; 32] }];
    let texts = encode_addresses(&list);
    assert_eq!(texts, vec![SAMPLE_TEXT.to_string(), "11111111111111111111111111111111".to_string()]);
    assert_eq!(decode_addresses(&texts).unwrap(), list);
    let bad = vec![SAMPLE_TEXT.to_string(), "bad0".to_string(), "worse0".to_string()];
    match decode_addresses(&bad) {
        Err(CodecError::InvalidAddress { text }) => assert_eq!(text, "bad0"),
        other => panic!("unexpected {other:?}"),
    }
}

#[test]
fn address_map_decodes_every_entry() {
    let entries = vec![
        ("3".to_string(), SAMPLE_TEXT.to_string()),
        ("0".to_string(), "11111111111111111111111111111111".to_string()),
    ];
    let m = decode_address_map(&entries).unwrap();
    assert_eq!(m.len(), 2);
    assert_eq!(m[&3], Address { bytes: SAMPLE_BYTES });
    assert_eq!(m[&0], Address { bytes: [0; 32] });
    let bad_key = vec![("x".to_string(), SAMPLE_TEXT.to_string())];
    assert!(matches!(decode_address_map(&bad_key), Err(CodecError::InvalidInteger { .. })));
    let bad_value = vec![("1".to_string(), "nope0".to_string())];
    assert!(matches!(decode_address_map(&bad_value), Err(CodecError::InvalidAddress { .. })));
}

#[test]
fn unhealthy_list_fails_on_invalid_address() {
    let texts = vec![SAMPLE_TEXT.to_string(), "garbage0".to_string(), "11111111111111111111111111111111".to_string()];
    match decode_addresses(&texts) {
        Err(CodecError::InvalidAddress { text }) => assert_eq!(text, "garbage0"),
        other => panic!("unexpected {other:?}"),
    }
    assert!(decode_addresses(&vec![]).unwrap().is_empty());
}
