use rust_locale::codec::{scalar_from_utf8, utf8_bytes, utf8_length};
use rust_locale::error::CTypeError;

#[test]
fn utf8_bytes_of_each_width() {
    assert_eq!(utf8_bytes(&'a'), vec![0x61]);
    assert_eq!(utf8_bytes(&'\u{e9}'), vec![0xc3, 0xa9]);
    assert_eq!(utf8_bytes(&'\u{20ac}'), vec![0xe2, 0x82, 0xac]);
    assert_eq!(utf8_bytes(&'\u{1f600}'), vec![0xf0, 0x9f, 0x98, 0x80]);
}

#[test]
fn utf8_bytes_at_the_width_boundaries() {
    assert_eq!(utf8_bytes(&'\0'), vec![0x00]);
    assert_eq!(utf8_bytes(&'\u{7f}'), vec![0x7f]);
    assert_eq!(utf8_bytes(&'\u{80}'), vec![0xc2, 0x80]);
    assert_eq!(utf8_bytes(&'\u{7ff}'), vec![0xdf, 0xbf]);
    assert_eq!(utf8_bytes(&'\u{800}'), vec![0xe0, 0xa0, 0x80]);
    assert_eq!(utf8_bytes(&'\u{d7ff}'), vec![0xed, 0x9f, 0xbf]);
    assert_eq!(utf8_bytes(&'\u{e000}'), vec![0xee, 0x80, 0x80]);
    assert_eq!(utf8_bytes(&'\u{ffff}'), vec![0xef, 0xbf, 0xbf]);
    assert_eq!(utf8_bytes(&'\u{10000}'), vec![0xf0, 0x90, 0x80, 0x80]);
    assert_eq!(utf8_bytes(&'\u{10ffff}'), vec![0xf4, 0x8f, 0xbf, 0xbf]);
}

#[test]
fn utf8_length_of_each_width() {
    assert_eq!(utf8_length('a'), 1);
    assert_eq!(utf8_length('\u{7f}'), 1);
    assert_eq!(utf8_length('\u{80}'), 2);
    assert_eq!(utf8_length('\u{7ff}'), 2);
    assert_eq!(utf8_length('\u{800}'), 3);
    assert_eq!(utf8_length('\u{ffff}'), 3);
    assert_eq!(utf8_length('\u{10000}'), 4);
    assert_eq!(utf8_length('\u{10ffff}'), 4);
}

#[test]
fn utf8_bytes_agrees_with_the_standard_encoder() {
    let mut v: u32 = 0;
    while v <= 0x10ffff {
        if let Some(c) = char::from_u32(v) {
            let mut buf = [0u8; 4];
            let expected = c.encode_utf8(&mut buf).as_bytes();
            assert_eq!(utf8_bytes(&c).as_slice(), expected, "U+{:04X}", v);
            assert_eq!(utf8_length(c), c.len_utf8(), "U+{:04X}", v);
        }
        v += 1;
    }
}

#[test]
fn decoding_undoes_encoding() {
    let mut v: u32 = 0;
    while v <= 0x10ffff {
        if let Some(c) = char::from_u32(v) {
            assert_eq!(scalar_from_utf8(&utf8_bytes(&c)), Ok(c), "U+{:04X}", v);
        }
        v += 1;
    }
}

#[test]
fn decodes_one_scalar_of_each_width() {
    assert_eq!(scalar_from_utf8(&[0x41]), Ok('A'));
    assert_eq!(scalar_from_utf8(&[0xc3, 0xa9]), Ok('\u{e9}'));
    assert_eq!(scalar_from_utf8(&[0xe2, 0x82, 0xac]), Ok('\u{20ac}'));
    assert_eq!(scalar_from_utf8(&[0xf0, 0x9f, 0x98, 0x80]), Ok('\u{1f600}'));
}

#[test]
fn no_bytes_hold_no_scalar() {
    assert_eq!(scalar_from_utf8(&[]), Err(CTypeError::NotOneScalar));
}

#[test]
fn two_scalars_are_not_one() {
    assert_eq!(scalar_from_utf8(&[0x61, 0x62]), Err(CTypeError::NotOneScalar));
    assert_eq!(scalar_from_utf8(&[0xc3, 0xa9, 0x61]), Err(CTypeError::NotOneScalar));
    assert_eq!(scalar_from_utf8(&[0x61, 0xc3, 0xa9]), Err(CTypeError::NotOneScalar));
    assert_eq!(scalar_from_utf8(&[0x61, 0x62, 0x63, 0x64]), Err(CTypeError::NotOneScalar));
    assert_eq!(scalar_from_utf8(&[0xc3, 0xa9, 0xc3, 0xa9]), Err(CTypeError::NotOneScalar));
}

#[test]
fn a_lone_continuation_byte_is_invalid() {
    assert_eq!(scalar_from_utf8(&[0x80]), Err(CTypeError::InvalidUtf8));
    assert_eq!(scalar_from_utf8(&[0xbf]), Err(CTypeError::InvalidUtf8));
}

#[test]
fn a_truncated_sequence_is_invalid() {
    assert_eq!(scalar_from_utf8(&[0xc3]), Err(CTypeError::InvalidUtf8));
    assert_eq!(scalar_from_utf8(&[0xe2, 0x82]), Err(CTypeError::InvalidUtf8));
    assert_eq!(scalar_from_utf8(&[0xf0, 0x9f, 0x98]), Err(CTypeError::InvalidUtf8));
}

#[test]
fn an_overlong_encoding_is_invalid() {
    assert_eq!(scalar_from_utf8(&[0xc0, 0x80]), Err(CTypeError::InvalidUtf8));
    assert_eq!(scalar_from_utf8(&[0xc1, 0xbf]), Err(CTypeError::InvalidUtf8));
    assert_eq!(scalar_from_utf8(&[0xe0, 0x9f, 0xbf]), Err(CTypeError::InvalidUtf8));
    assert_eq!(scalar_from_utf8(&[0xf0, 0x8f, 0xbf, 0xbf]), Err(CTypeError::InvalidUtf8));
}

#[test]
fn a_surrogate_is_invalid() {
    assert_eq!(scalar_from_utf8(&[0xed, 0xa0, 0x80]), Err(CTypeError::InvalidUtf8));
    assert_eq!(scalar_from_utf8(&[0xed, 0xbf, 0xbf]), Err(CTypeError::InvalidUtf8));
}

#[test]
fn a_code_point_above_the_last_scalar_is_invalid() {
    assert_eq!(scalar_from_utf8(&[0xf4, 0x90, 0x80, 0x80]), Err(CTypeError::InvalidUtf8));
    assert_eq!(scalar_from_utf8(&[0xf7, 0xbf, 0xbf, 0xbf]), Err(CTypeError::InvalidUtf8));
    assert_eq!(scalar_from_utf8(&[0xf8, 0x88, 0x80, 0x80]), Err(CTypeError::InvalidUtf8));
    assert_eq!(scalar_from_utf8(&[0xff]), Err(CTypeError::InvalidUtf8));
}

#[test]
fn a_valid_scalar_before_invalid_bytes_is_invalid() {
    assert_eq!(scalar_from_utf8(&[0x61, 0x80]), Err(CTypeError::InvalidUtf8));
    assert_eq!(scalar_from_utf8(&[0xc3, 0xa9, 0xc3]), Err(CTypeError::InvalidUtf8));
    assert_eq!(scalar_from_utf8(&[0x61, 0x62, 0xff]), Err(CTypeError::InvalidUtf8));
}

#[test]
fn decoder_agrees_with_the_standard_validator_on_short_inputs() {
    let mut checked = 0u32;
    for a in 0u16..=0xff {
        let one = [a as u8];
        compare(&one);
        for b in 0u16..=0xff {
            let two = [a as u8, b as u8];
            compare(&two);
            checked += 1;
        }
    }
    assert_eq!(checked, 65536);
}

#[test]
fn decoder_agrees_with_the_standard_validator_on_sampled_inputs() {
    let mut state: u32 = 0x2545_f491;
    for _ in 0..200_000 {
        let mut bytes = [0u8; 4];
        for b in bytes.iter_mut() {
            state ^= state << 13;
            state ^= state >> 17;
            state ^= state << 5;
            let pick = state >> 8;
            *b = match pick % 4 {
                0 => (pick >> 2) as u8 & 0x7f,
                1 => 0x80 | ((pick >> 2) as u8 & 0x3f),
                2 => 0xc0 | ((pick >> 2) as u8 & 0x3f),
                _ => (pick >> 2) as u8,
            };
        }
        let len = 1 + (state as usize >> 29) % 4;
        compare(&bytes[..len]);
    }
}

fn compare(bytes: &[u8]) {
    let expected = match std::str::from_utf8(bytes) {
        Err(_) => Err(CTypeError::InvalidUtf8),
        Ok(s) => {
            let mut chars = s.chars();
            match (chars.next(), chars.next()) {
                (Some(c), None) => Ok(c),
                _ => Err(CTypeError::NotOneScalar),
            }
        }
    };
    assert_eq!(scalar_from_utf8(bytes), expected, "bytes {:02x?}", bytes);
}
