use zone_metrics::text::decimal_string;
use zone_metrics::hex_codec::{decode_hex_32, encode_hex, HexArgError, HexFault};

#[test]
fn encode_is_lower_case() {
    assert_eq!(encode_hex(&[0x00, 0xab, 0x7f, 0xff]), "00ab7fff");
    assert_eq!(encode_hex(&[]), "");
}

#[test]
fn decode_32_bytes() {
    let text = "00".repeat(31) + "Ff";
    let mut expected = [0u8; 32];
    expected[31] = 0xff;
    assert_eq!(decode_hex_32(&text), Ok(expected));
}

#[test]
fn decode_refusals() {
    assert_eq!(decode_hex_32("abc"), Err(HexArgError::InvalidHex(HexFault::OddLength)));
    assert_eq!(
        decode_hex_32("zz"),
        Err(HexArgError::InvalidHex(HexFault::InvalidHexCharacter { c: 'z', index: 0 }))
    );
    assert_eq!(
        decode_hex_32("0a1g"),
        Err(HexArgError::InvalidHex(HexFault::InvalidHexCharacter { c: 'g', index: 3 }))
    );
    assert_eq!(decode_hex_32("é0"), Err(HexArgError::InvalidHex(HexFault::OddLength)));
    assert_eq!(
        decode_hex_32("é"),
        Err(HexArgError::InvalidHex(HexFault::InvalidHexCharacter { c: '\u{c3}', index: 0 }))
    );
    assert_eq!(decode_hex_32("abcd"), Err(HexArgError::WrongLength { expected: 32, actual: 2 }));
    assert_eq!(decode_hex_32(""), Err(HexArgError::WrongLength { expected: 32, actual: 0 }));
}

#[test]
fn decode_inverts_encode() {
    let bytes: [u8; 32] = core::array::from_fn(|i| (i * 37 + 5) as u8);
    let text = encode_hex(&bytes);
    assert_eq!(text.len(), 64);
    assert_eq!(decode_hex_32(&text), Ok(bytes));
}

#[test]
fn decimal_texts() {

    assert_eq!(decimal_string(0), "0");
    assert_eq!(decimal_string(7), "7");
    assert_eq!(decimal_string(10), "10");
    assert_eq!(decimal_string(u128::MAX), u128::MAX.to_string());
}
