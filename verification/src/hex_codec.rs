//! Hexadecimal encoding and decoding through the `hex` crate, and the
//! fixed-size identifiers (channel ids, keys, message ids) built on it.

use vstd::prelude::*;
use vstd::array::ArrayAdditionalExecFns;
use vstd::string::StringSliceAdditionalSpecFns;

verus! {

/// The value of one ASCII hex digit, upper or lower case.
pub open spec fn hex_digit_value(c: u8) -> Option<u8> {
    if 48 <= c <= 57 {
        Some((c - 48) as u8)
    } else if 97 <= c <= 102 {
        Some((c - 87) as u8)
    } else if 65 <= c <= 70 {
        Some((c - 55) as u8)
    } else {
        None
    }
}

/// What decoding a hex byte string gives: `None` for an odd length or a
/// byte that is not a hex digit, else two digits per byte, high nibble first.
pub open spec fn hex_decode_spec(b: Seq<u8>) -> Option<Seq<u8>>
    decreases b.len(),
{
    if b.len() % 2 != 0 {
        None
    } else if b.len() == 0 {
        Some(Seq::empty())
    } else {
        match (hex_digit_value(b[0]), hex_digit_value(b[1]), hex_decode_spec(b.subrange(2, b.len() as int))) {
            (Some(hi), Some(lo), Some(rest)) => Some(seq![(hi * 16 + lo) as u8] + rest),
            _ => None,
        }
    }
}

/// The lower-case hex digit of a nibble.
pub open spec fn hex_char(n: int) -> char {
    if n < 10 {
        (48 + n) as char
    } else {
        (87 + n) as char
    }
}

/// Lower-case hex text of a byte sequence, two digits per byte, high nibble first.
pub open spec fn hex_encode_spec(b: Seq<u8>) -> Seq<char>
    decreases b.len(),
{
    if b.len() == 0 {
        Seq::empty()
    } else {
        seq![hex_char((b[0] / 16) as int), hex_char((b[0] % 16) as int)] + hex_encode_spec(b.drop_first())
    }
}

/// The bytes of a text whose characters are all ASCII.
pub open spec fn ascii_bytes(s: Seq<char>) -> Seq<u8> {
    s.map_values(|c: char| c as u8)
}


proof fn lemma_hex_char_digit(n: int)
    requires
        0 <= n < 16,
    ensures
        hex_digit_value(hex_char(n) as u8) == Some(n as u8),
{
}

/// Decoding the hex text of any byte sequence gives back those bytes.
pub proof fn law_hex_round_trip(b: Seq<u8>)
    ensures
        hex_decode_spec(ascii_bytes(hex_encode_spec(b))) == Some(b),
    decreases b.len(),
{
    let enc = hex_encode_spec(b);
    let bytes = ascii_bytes(enc);
    if b.len() == 0 {
        assert(bytes =~= Seq::<u8>::empty());
    } else {
        let hi = (b[0] / 16) as int;
        let lo = (b[0] % 16) as int;
        let rest = hex_encode_spec(b.drop_first());
        law_hex_round_trip(b.drop_first());
        lemma_hex_char_digit(hi);
        lemma_hex_char_digit(lo);
        assert(enc == seq![hex_char(hi), hex_char(lo)] + rest);
        assert(bytes.subrange(2, bytes.len() as int) =~= ascii_bytes(rest));
        assert(bytes[0] == hex_char(hi) as u8);
        assert(bytes[1] == hex_char(lo) as u8);
        lemma_hex_encode_len(b.drop_first());
        assert(bytes.len() % 2 == 0);
        assert(seq![(hi * 16 + lo) as u8] + b.drop_first() =~= b);
    }
}

proof fn lemma_hex_encode_len(b: Seq<u8>)
    ensures
        hex_encode_spec(b).len() == 2 * b.len(),
    decreases b.len(),
{
    if b.len() > 0 {
        lemma_hex_encode_len(b.drop_first());
    }
}

/// Why `hex::decode` refused a text, one case per variant of
/// `hex::FromHexError`.
#[derive(Debug, Clone, Copy, PartialEq, Eq)]
pub enum HexFault {
    /// The byte at `index` is no hex digit; `c` is that byte as a character.
    InvalidHexCharacter { c: char, index: usize },
    /// The text has an odd number of bytes.
    OddLength,
    /// The text does not fit a fixed-size target (not given by `hex::decode`).
    InvalidStringLength,
}

/// The position of the first byte at or after `i` that is no hex digit, or
/// the length when there is none.
pub open spec fn first_non_hex_from(b: Seq<u8>, i: int) -> int
    decreases b.len() - i,
{
    if i < 0 || i >= b.len() || hex_digit_value(b[i]) is None {
        i
    } else {
        first_non_hex_from(b, i + 1)
    }
}

/// The fault `hex::decode` reports for a text it refuses: an odd length is
/// checked first, then the digits from the start, the first bad one named.
pub open spec fn hex_fault_spec(b: Seq<u8>) -> HexFault {
    if b.len() % 2 != 0 {
        HexFault::OddLength
    } else {
        let k = first_non_hex_from(b, 0);
        HexFault::InvalidHexCharacter { c: b[k] as char, index: k as usize }
    }
}

/// `hex::decode`: per the crate's source, an odd number of bytes is refused
/// (`OddLength`), every byte must be an ASCII hex digit of either case, the
/// first that is not being reported with its position
/// (`InvalidHexCharacter`), and each pair gives one byte, high nibble first.
#[verifier::external_body]
fn hex_decode(data: &[u8]) -> (res: Result<Vec<u8>, HexFault>)
    ensures
        res is Ok <==> hex_decode_spec(data@) is Some,
        res matches Ok(v) ==> v@ == hex_decode_spec(data@).unwrap(),
        res matches Err(f) ==> f == hex_fault_spec(data@),
{
    match hex::decode(data) {
        Ok(v) => Ok(v),
        Err(hex::FromHexError::InvalidHexCharacter { c, index }) => Err(HexFault::InvalidHexCharacter { c, index }),
        Err(hex::FromHexError::OddLength) => Err(HexFault::OddLength),
        Err(hex::FromHexError::InvalidStringLength) => Err(HexFault::InvalidStringLength),
    }
}

/// `hex::encode`: lower-case hex digits, two per byte, high nibble first.
#[verifier::external_body]
fn hex_encode(data: &[u8]) -> (res: String)
    ensures
        res@ == hex_encode_spec(data@),
{
    hex::encode(data)
}

/// Lower-case hex text of `data`.
pub fn encode_hex(data: &[u8]) -> (res: String)
    ensures
        res@ == hex_encode_spec(data@),
{
    hex_encode(data)
}

/// Why a hex argument was refused.
#[derive(Debug, Clone, Copy, PartialEq, Eq)]
pub enum HexArgError {
    /// The text is not an even number of hex digits: why, as the decoder says.
    InvalidHex(HexFault),
    /// The text decodes, but not to the expected number of bytes.
    WrongLength { expected: usize, actual: usize },
}

/// The 32 bytes of a 32-byte vector, as an array.
pub fn bytes_to_array_32(v: &Vec<u8>) -> (a: [u8; 32])
    requires
        v@.len() == 32,
    ensures
        a@ == v@,
{
    let mut a = [0u8; 32];
    for i in 0..32
        invariant
            v@.len() == 32,
            forall|k: int| 0 <= k < i ==> a@[k] == v@[k],
    {
        a.set(i, v[i]);
    }
    assert(a@ =~= v@);
    a
}

/// What decoding to 32 bytes gives for the bytes of a text.
pub open spec fn hex32_spec(text: Seq<u8>) -> Result<Seq<u8>, HexArgError> {
    match hex_decode_spec(text) {
        None => Err(HexArgError::InvalidHex(hex_fault_spec(text))),
        Some(bytes) => if bytes.len() == 32 {
            Ok(bytes)
        } else {
            Err(HexArgError::WrongLength { expected: 32, actual: bytes.len() as usize })
        },
    }
}

/// A decoded 32-byte value, by its bytes.
pub open spec fn array32_result_view(r: Result<[u8; 32], HexArgError>) -> Result<Seq<u8>, HexArgError> {
    match r {
        Ok(a) => Ok(a@),
        Err(e) => Err(e),
    }
}

/// Decodes hex text into exactly 32 bytes (channel ids, keys, message ids).
pub fn decode_hex_32(text: &str) -> (res: Result<[u8; 32], HexArgError>)
    ensures
        array32_result_view(res) == hex32_spec(text.spec_bytes()),
{
    match hex_decode(text.as_bytes()) {
        Err(f) => Err(HexArgError::InvalidHex(f)),
        Ok(bytes) => {
            if bytes.len() == 32 {
                Ok(bytes_to_array_32(&bytes))
            } else {
                Err(HexArgError::WrongLength { expected: 32, actual: bytes.len() })
            }
        },
    }
}

/// Decoding gives half as many bytes as there are hex digits.
proof fn lemma_hex_decode_len(b: Seq<u8>)
    requires
        hex_decode_spec(b) is Some,
    ensures
        2 * hex_decode_spec(b).unwrap().len() == b.len(),
    decreases b.len(),
{
    if b.len() > 0 {
        lemma_hex_decode_len(b.subrange(2, b.len() as int));
    }
}

/// A 32-byte identifier is accepted only as exactly 64 hex digits, and then
/// is the bytes they spell; hex text of any other number of bytes `n` is
/// refused as `WrongLength { expected: 32, actual: n }`, never cut or padded.
pub proof fn law_hex32_exactly_32_bytes(text: Seq<u8>)
    ensures
        hex32_spec(text) is Ok ==> text.len() == 64 && hex_decode_spec(text) == Some(hex32_spec(text)->Ok_0),
        hex_decode_spec(text) is Some && hex_decode_spec(text).unwrap().len() == 32
            ==> hex32_spec(text) == Ok::<Seq<u8>, HexArgError>(hex_decode_spec(text).unwrap()),
        hex_decode_spec(text) is Some && text.len() != 64 ==> hex32_spec(text) == Err::<Seq<u8>, HexArgError>(
            HexArgError::WrongLength { expected: 32, actual: (text.len() / 2) as usize },
        ),
        hex_decode_spec(text) is None ==> hex32_spec(text) is Err,
{
    if hex_decode_spec(text) is Some {
        lemma_hex_decode_len(text);
    }
}

/// Decoding the hex text of 32 bytes gives back those bytes.
pub proof fn law_hex32_round_trip(text: &str, bytes: Seq<u8>)
    requires
        bytes.len() == 32,
        text@ == hex_encode_spec(bytes),
    ensures
        hex32_spec(text.spec_bytes()) == Ok::<Seq<u8>, HexArgError>(bytes),
{
    lemma_hex_encode_ascii(bytes);
    assert(vstd::string::is_ascii(text));
    vstd::string::is_ascii_spec_bytes(text);
    assert(text.spec_bytes() =~= ascii_bytes(text@));
    law_hex_round_trip(bytes);
}

proof fn lemma_hex_encode_ascii(b: Seq<u8>)
    ensures
        vstd::utf8::is_ascii_chars(hex_encode_spec(b)),
    decreases b.len(),
{
    if b.len() > 0 {
        lemma_hex_encode_ascii(b.drop_first());
        let rest = hex_encode_spec(b.drop_first());
        let hi = (b[0] / 16) as int;
        let lo = (b[0] % 16) as int;
        assert(hex_encode_spec(b) == seq![hex_char(hi), hex_char(lo)] + rest);
        assert forall|i: int| 0 <= i < hex_encode_spec(b).len() implies '\0' <= #[trigger] hex_encode_spec(b)[i] <= '\u{7f}' by {
            if i >= 2 {
                assert(hex_encode_spec(b)[i] == rest[i - 2]);
            }
        }
    }
}

} // verus!
