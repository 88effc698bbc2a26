use modrinth::base62::{decode, encode, Base62, Base62Encoded, DecodeError};

#[test]
fn encode_known_values() {
    assert_eq!(encode(0), "0");
    assert_eq!(encode(9), "9");
    assert_eq!(encode(10), "A");
    assert_eq!(encode(35), "Z");
    assert_eq!(encode(36), "a");
    assert_eq!(encode(61), "z");
    assert_eq!(encode(62), "10");
    assert_eq!(encode(12345), "3D7");
}

#[test]
fn decode_known_values() {
    assert_eq!(decode("0"), Ok(0));
    assert_eq!(decode("z"), Ok(61));
    assert_eq!(decode("10"), Ok(62));
    assert_eq!(decode("3D7"), Ok(12345));
    assert_eq!(decode("Zz"), Ok(35 * 62 + 61));
}

#[test]
fn decode_inverts_encode_on_samples() {
    for &n in &[
        0u64,
        1,
        61,
        62,
        63,
        3843,
        3844,
        123_456_789,
        u64::MAX - 1,
        u64::MAX,
    ] {
        assert_eq!(decode(&encode(n)), Ok(n));
    }
}

#[test]
fn encode_of_decode_is_canonical() {
    assert_eq!(encode(decode("abc").unwrap()), "abc");
    // Leading zeros normalize away.
    assert_eq!(encode(decode("00abc").unwrap()), "abc");
    assert_eq!(encode(decode("000").unwrap()), "0");
}

#[test]
fn decode_rejects_foreign_characters() {
    assert_eq!(decode("abc!"), Err(DecodeError::InvalidCharacter('!')));
    assert_eq!(decode("-1"), Err(DecodeError::InvalidCharacter('-')));
    assert_eq!(decode("a b"), Err(DecodeError::InvalidCharacter(' ')));
    // The first foreign character is the one named.
    assert_eq!(decode("x?y!"), Err(DecodeError::InvalidCharacter('?')));
}

#[test]
fn decode_rejects_empty_input() {
    assert_eq!(decode(""), Err(DecodeError::EmptyInput));
}

#[test]
fn decode_rejects_overflow() {
    // u64::MAX encodes as "LygHa16AHYF"; one more digit overflows.
    let max = encode(u64::MAX);
    assert_eq!(decode(&max), Ok(u64::MAX));
    let over = format!("{}0", max);
    assert_eq!(decode(&over), Err(DecodeError::ArithmeticOverflow));
    assert_eq!(
        decode("zzzzzzzzzzzzzzzzzzzzzz"),
        Err(DecodeError::ArithmeticOverflow)
    );
}

#[test]
fn agrees_with_reference_codec() {
    for &n in &[0u64, 61, 62, 12345, 987_654_321, u64::MAX] {
        assert_eq!(encode(n), base62::encode(n));
    }
    for s in ["0", "z", "10", "3D7", "LygHa16AHYF"] {
        assert_eq!(
            decode(s).unwrap() as u128,
            base62::decode(s).unwrap()
        );
    }
}

#[test]
fn identifier_wraps_the_integer() {
    let id = Base62::new(12345);
    assert_eq!(id.value(), 12345);
    assert_eq!(id.render(), "3D7");
    assert_eq!(Base62::parse("3D7"), Ok(Base62::new(12345)));
    assert_eq!(Base62::new(1), Base62::new(1));
    assert_ne!(Base62::new(1), Base62::new(2));
}

#[test]
fn encoded_wrapper_round_trips() {
    let v = Base62Encoded::from_str("3D7").unwrap();
    assert_eq!(v.0, 12345);
    assert_eq!(v.render(), "3D7");
    assert!(matches!(
        Base62Encoded::from_str("!"),
        Err(DecodeError::InvalidCharacter('!'))
    ));
}
