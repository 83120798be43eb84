//! Hexadecimal text as the wire carries it: what counts as hex, which bytes a
//! hex text stands for, and which text stands for given bytes. The conversions
//! themselves are done by the `hex` crate.

use vstd::prelude::*;

verus! {

/// The value of one hexadecimal digit, in either case; `None` for any other
/// character.
pub open spec fn hex_digit_value(c: char) -> Option<int> {
    if '0' <= c && c <= '9' {
        Some(c as int - '0' as int)
    } else if 'a' <= c && c <= 'f' {
        Some(c as int - 'a' as int + 10)
    } else if 'A' <= c && c <= 'F' {
        Some(c as int - 'A' as int + 10)
    } else {
        None
    }
}

/// Hex text has an even number of characters, all of them hex digits. The
/// empty text is hex.
pub open spec fn is_hex(text: Seq<char>) -> bool {
    &&& text.len() % 2 == 0
    &&& forall|i: int| 0 <= i < text.len() ==> (#[trigger] hex_digit_value(text[i])) is Some
}

/// The byte that two hex digits stand for, the high one first.
pub open spec fn hex_pair(high: char, low: char) -> u8 {
    (hex_digit_value(high).unwrap() * 16 + hex_digit_value(low).unwrap()) as u8
}

/// The bytes that a hex text stands for.
pub open spec fn hex_bytes(text: Seq<char>) -> Seq<u8> {
    Seq::new(text.len() / 2, |i: int| hex_pair(text[2 * i], text[2 * i + 1]))
}

/// The lower-case hex digit for a value below sixteen.
pub open spec fn hex_digit(value: int) -> char {
    if value < 10 {
        ('0' as int + value) as char
    } else {
        ('a' as int + value - 10) as char
    }
}

/// The lower-case hex text of some bytes: two digits per byte, the high one
/// first.
pub open spec fn hex_text(bytes: Seq<u8>) -> Seq<char> {
    Seq::new(
        2 * bytes.len(),
        |i: int|
            if i % 2 == 0 {
                hex_digit(bytes[i / 2] as int / 16)
            } else {
                hex_digit(bytes[i / 2] as int % 16)
            },
    )
}

/// Hex text whose letters are all lower case: the form `hex_text` produces.
pub open spec fn is_lower_hex(text: Seq<char>) -> bool {
    &&& is_hex(text)
    &&& forall|i: int| 0 <= i < text.len() ==> !('A' <= #[trigger] text[i] && text[i] <= 'F')
}

/// The words with which the `hex` crate turns down a text that is not hex.
pub uninterp spec fn hex_refusal(text: Seq<char>) -> Seq<char>;

/// Calls `hex::decode`. The crate reads the bytes of the text in pairs. It
/// accepts the text exactly when the number of bytes is even and every byte
/// is a hex digit of either case; the result is then the pairs' values in
/// order. A text that it accepts is plain ASCII, so its bytes are its
/// characters, and the contract speaks of characters. Otherwise the crate
/// returns an error, of which this keeps the printed form.
#[verifier::external_body]
pub(crate) fn decode_hex(text: &str) -> (decoded: Result<Vec<u8>, String>)
    ensures
        decoded is Ok <==> is_hex(text@),
        decoded matches Ok(bytes) ==> bytes@ == hex_bytes(text@),
        decoded matches Err(why) ==> why@ == hex_refusal(text@),
{
    match hex::decode(text) {
        Ok(bytes) => Ok(bytes),
        Err(error) => Err(error.to_string()),
    }
}

/// Calls `hex::encode`, which writes each byte as two lower-case hex digits,
/// the high four bits first.
#[verifier::external_body]
pub(crate) fn encode_hex(bytes: &Vec<u8>) -> (text: String)
    ensures
        text@ == hex_text(bytes@),
{
    hex::encode(bytes)
}

/// Encoding bytes gives lower-case hex text, and decoding that text gives the
/// bytes back.
pub proof fn lemma_hex_round_trip(bytes: Seq<u8>)
    ensures
        is_lower_hex(hex_text(bytes)),
        hex_bytes(hex_text(bytes)) == bytes,
{
    let text = hex_text(bytes);
    assert forall|i: int| 0 <= i < text.len() implies (#[trigger] hex_digit_value(text[i])) is Some
        && !('A' <= text[i] && text[i] <= 'F') by {
        let b = bytes[i / 2] as int;
        assert(0 <= b / 16 < 16);
        assert(0 <= b % 16 < 16);
    }
    assert forall|k: int| 0 <= k < bytes.len() implies hex_bytes(text)[k] == bytes[k] by {
        let b = bytes[k] as int;
        assert((2 * k) / 2 == k && (2 * k) % 2 == 0);
        assert((2 * k + 1) / 2 == k && (2 * k + 1) % 2 == 1);
        assert(text[2 * k] == hex_digit(b / 16));
        assert(text[2 * k + 1] == hex_digit(b % 16));
        assert(0 <= b / 16 < 16);
        assert(0 <= b % 16 < 16);
        assert(hex_digit_value(hex_digit(b / 16)) == Some(b / 16));
        assert(hex_digit_value(hex_digit(b % 16)) == Some(b % 16));
        assert((b / 16) * 16 + b % 16 == b);
    }
    assert(hex_bytes(text) =~= bytes);
}

/// Decoding lower-case hex text and encoding the bytes gives the text back,
/// character for character.
pub proof fn lemma_lower_hex_survives(text: Seq<char>)
    requires
        is_lower_hex(text),
    ensures
        hex_text(hex_bytes(text)) == text,
{
    let bytes = hex_bytes(text);
    assert forall|i: int| 0 <= i < text.len() implies hex_text(bytes)[i] == text[i] by {
        let k = i / 2;
        let high = text[2 * k];
        let low = text[2 * k + 1];
        assert(hex_digit_value(high) is Some);
        assert(hex_digit_value(low) is Some);
        let h = hex_digit_value(high).unwrap();
        let l = hex_digit_value(low).unwrap();
        assert(0 <= h < 16 && 0 <= l < 16);
        assert(bytes[k] == hex_pair(high, low));
        assert(bytes[k] as int == h * 16 + l);
        assert((h * 16 + l) / 16 == h && (h * 16 + l) % 16 == l);
        assert(hex_digit(h) == high);
        assert(hex_digit(l) == low);
        if i % 2 == 0 {
            assert(i == 2 * k);
        } else {
            assert(i == 2 * k + 1);
        }
    }
    assert(hex_text(bytes) =~= text);
}

} // verus!
