use vstd::prelude::*;
use hex::FromHex;
use hex::ToHex;

verus! {

/// The error `hex` decoding reports; it is carried, never looked into.
#[verifier::external_type_specification]
#[verifier::external_body]
pub struct ExFromHexError(hex::FromHexError);

/// The lower-case hex digit of a value below sixteen.
pub open spec fn hex_digit(n: int) -> char {
    if n < 10 {
        (48 + n) as char
    } else {
        (87 + n) as char
    }
}

/// Whether `c` is a hex digit, in either case.
pub open spec fn is_hex_digit(c: char) -> bool {
    ||| '0' <= c <= '9'
    ||| 'a' <= c <= 'f'
    ||| 'A' <= c <= 'F'
}

/// The value of a hex digit.
pub open spec fn hex_value(c: char) -> int {
    if '0' <= c <= '9' {
        c as int - 48
    } else if 'a' <= c <= 'f' {
        c as int - 87
    } else {
        c as int - 55
    }
}

/// Lower-case hex text of `bytes`: two digits per byte, high half first.
pub open spec fn spec_hex_encode(bytes: Seq<u8>) -> Seq<char> {
    Seq::new(
        2 * bytes.len(),
        |i: int|
            if i % 2 == 0 {
                hex_digit(bytes[i / 2] as int / 16)
            } else {
                hex_digit(bytes[i / 2] as int % 16)
            },
    )
}

/// Whether `text` is hex text: an even number of hex digits, in either case.
pub open spec fn is_hex_text(text: Seq<char>) -> bool {
    &&& text.len() % 2 == 0
    &&& forall|i: int| 0 <= i < text.len() ==> is_hex_digit(#[trigger] text[i])
}

/// The bytes that hex text stands for, or `None` where `text` is no hex text.
pub open spec fn spec_hex_decode(text: Seq<char>) -> Option<Seq<u8>> {
    if is_hex_text(text) {
        Some(
            Seq::new(
                text.len() / 2,
                |j: int| (16 * hex_value(text[2 * j]) + hex_value(text[2 * j + 1])) as u8,
            ),
        )
    } else {
        None
    }
}

/// Encoding bytes as hex text and decoding that text gives the bytes back.
pub proof fn lemma_hex_round_trip(bytes: Seq<u8>)
    ensures
        spec_hex_decode(spec_hex_encode(bytes)) == Some(bytes),
{
    let text = spec_hex_encode(bytes);
    assert forall|i: int| 0 <= i < text.len() implies is_hex_digit(#[trigger] text[i]) by {
        let b = bytes[i / 2] as int;
        assert(0 <= b / 16 < 16);
        assert(0 <= b % 16 < 16);
    }
    let back = spec_hex_decode(text).unwrap();
    assert forall|j: int| 0 <= j < bytes.len() implies #[trigger] back[j] == bytes[j] by {
        let b = bytes[j] as int;
        assert(text[2 * j] == hex_digit(b / 16));
        assert(text[2 * j + 1] == hex_digit(b % 16));
        assert(hex_value(hex_digit(b / 16)) == b / 16);
        assert(hex_value(hex_digit(b % 16)) == b % 16);
        assert(16 * (b / 16) + b % 16 == b);
    }
    assert(back =~= bytes);
}

/// Whether `text` is hex text.
pub fn is_hex(text: &str) -> (r: bool)
    ensures
        r == is_hex_text(text@),
{
    decode_hex(text).is_ok()
}

/// `ToHex::encode_hex` of the `hex` crate, collected into a `String`: the
/// lower-case hex text of `bytes`, two digits per byte, high half first.
#[verifier::external_body]
pub(crate) fn encode_hex(bytes: &[u8]) -> (text: String)
    ensures
        text@ == spec_hex_encode(bytes@),
{
    bytes.encode_hex::<String>()
}

/// `FromHex::from_hex` of the `hex` crate for `Vec<u8>`, on the UTF-8 bytes of
/// `text`: it succeeds exactly on hex text (an even number of ASCII hex digits
/// of either case) and then yields the bytes it stands for. Which of its
/// errors comes on other text is not stated.
#[verifier::external_body]
pub(crate) fn decode_hex(text: &str) -> (res: Result<Vec<u8>, hex::FromHexError>)
    ensures
        res is Ok <==> spec_hex_decode(text@) is Some,
        res matches Ok(bytes) ==> Some(bytes@) == spec_hex_decode(text@),
{
    Vec::<u8>::from_hex(text)
}

} // verus!
