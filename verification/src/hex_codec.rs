//! Bytes as hexadecimal text: two small digits for each byte, read back in
//! either case and with white space anywhere between the digits.

use vstd::prelude::*;
use crate::error::HexError;

verus! {

/// The bytes that count as white space: space, tab, line feed, form feed
/// and carriage return.
pub open spec fn is_ascii_whitespace(b: u8) -> bool {
    b == 0x20 || b == 0x09 || b == 0x0a || b == 0x0c || b == 0x0d
}

/// The test that keeps every byte but white space.
pub open spec fn is_visible() -> spec_fn(u8) -> bool {
    |b: u8| !is_ascii_whitespace(b)
}

/// `text` with its white space taken out.
pub open spec fn without_whitespace(text: Seq<u8>) -> Seq<u8> {
    text.filter(is_visible())
}

/// The number that a hexadecimal digit stands for, in either case.
pub open spec fn digit_value(b: u8) -> Option<u8> {
    if 0x30 <= b <= 0x39 {
        Some((b - 0x30) as u8)
    } else if 0x61 <= b <= 0x66 {
        Some((b - 0x61 + 10) as u8)
    } else if 0x41 <= b <= 0x46 {
        Some((b - 0x41 + 10) as u8)
    } else {
        None
    }
}

/// `b` is one of `0` to `9`, `a` to `f` or `A` to `F`.
pub open spec fn is_hex_digit(b: u8) -> bool {
    digit_value(b) is Some
}

/// The small hexadecimal digit for a number below 16.
pub open spec fn lower_digit(v: int) -> u8
    recommends
        0 <= v < 16,
{
    if v < 10 {
        (0x30 + v) as u8
    } else {
        (0x61 + v - 10) as u8
    }
}

/// The hexadecimal digits of `bytes`: for each byte first the digit of its
/// upper half, then that of its lower half.
pub open spec fn hex_digits(bytes: Seq<u8>) -> Seq<u8> {
    Seq::new(
        2 * bytes.len(),
        |i: int|
            if i % 2 == 0 {
                lower_digit(bytes[i / 2] as int / 16)
            } else {
                lower_digit(bytes[i / 2] as int % 16)
            },
    )
}

/// The hexadecimal digits of `bytes` as characters.
pub open spec fn hex_text(bytes: Seq<u8>) -> Seq<char> {
    Seq::new(2 * bytes.len(), |i: int| hex_digits(bytes)[i] as char)
}

/// Every byte of `text` is a hexadecimal digit.
pub open spec fn all_hex_digits(text: Seq<u8>) -> bool {
    forall|i: int| 0 <= i < text.len() ==> is_hex_digit(#[trigger] text[i])
}

/// `i` is the place of the first byte of `text` that is no hexadecimal digit.
pub open spec fn is_first_bad_digit(text: Seq<u8>, i: int) -> bool {
    &&& 0 <= i < text.len()
    &&& !is_hex_digit(text[i])
    &&& forall|j: int| 0 <= j < i ==> is_hex_digit(#[trigger] text[j])
}

/// The byte that the two digits at `2 * k` and `2 * k + 1` stand for.
pub open spec fn byte_of_pair(text: Seq<u8>, k: int) -> u8 {
    (digit_value(text[2 * k])->0 * 16 + digit_value(text[2 * k + 1])->0) as u8
}

/// What a run of digits decodes to. An odd number of digits is refused
/// first, then the first byte that is no digit, with its place; else each
/// pair of digits gives one byte.
pub open spec fn decoded_digits(text: Seq<u8>) -> Result<Seq<u8>, HexError> {
    if text.len() % 2 != 0 {
        Err(HexError::OddLength)
    } else if !all_hex_digits(text) {
        let i = choose|i: int| is_first_bad_digit(text, i);
        Err(HexError::InvalidHexCharacter { c: text[i] as char, index: i as usize })
    } else {
        Ok(Seq::new(text.len() / 2, |k: int| byte_of_pair(text, k)))
    }
}

/// What a hexadecimal text decodes to: its white space is taken out, and
/// what is left is read as digits.
pub open spec fn decoded(text: Seq<u8>) -> Result<Seq<u8>, HexError> {
    decoded_digits(without_whitespace(text))
}

/// The words in which a [`HexError`] is reported.
pub uninterp spec fn hex_error_text(e: HexError) -> Seq<char>;

/// Calls `hex::encode`. The contract states what its documentation says:
/// the text holds two small hexadecimal digits for each byte, in order
/// and with nothing between them.
#[verifier::external_body]
fn hex_encode(bytes: &[u8]) -> (text: String)
    ensures
        text@ == hex_text(bytes@),
{
    ::hex::encode(bytes)
}

/// Calls `hex::decode`. The contract states what its source does: a text
/// of odd length is refused as such; else the first byte that is no digit
/// is refused with the byte as a character and with its place; else every
/// two digits give one byte, the first digit its upper half.
#[verifier::external_body]
fn hex_decode(text: &[u8]) -> (r: Result<Vec<u8>, HexError>)
    ensures
        match r {
            Ok(bytes) => decoded_digits(text@) == Ok::<Seq<u8>, HexError>(bytes@),
            Err(e) => decoded_digits(text@) == Err::<Seq<u8>, HexError>(e),
        },
{
    match ::hex::decode(text) {
        Ok(bytes) => Ok(bytes),
        Err(::hex::FromHexError::InvalidHexCharacter { c, index }) => Err(
            HexError::InvalidHexCharacter { c, index },
        ),
        Err(::hex::FromHexError::OddLength) => Err(HexError::OddLength),
        Err(::hex::FromHexError::InvalidStringLength) => Err(HexError::InvalidStringLength),
    }
}

/// Calls the `Display` of `hex::FromHexError` on the same variant with the
/// same fields. The contract gives the text a name and states nothing more.
#[verifier::external_body]
pub(crate) fn describe_hex_error(e: &HexError) -> (text: String)
    ensures
        text@ == hex_error_text(*e),
{
    let outside = match *e {
        HexError::InvalidHexCharacter { c, index } => ::hex::FromHexError::InvalidHexCharacter {
            c,
            index,
        },
        HexError::OddLength => ::hex::FromHexError::OddLength,
        HexError::InvalidStringLength => ::hex::FromHexError::InvalidStringLength,
    };
    outside.to_string()
}

fn is_whitespace(b: u8) -> (r: bool)
    ensures
        r == is_ascii_whitespace(b),
{
    b == 0x20 || b == 0x09 || b == 0x0a || b == 0x0c || b == 0x0d
}

/// Takes the white space out of `text`.
pub fn strip_whitespace(text: &[u8]) -> (out: Vec<u8>)
    ensures
        out@ == without_whitespace(text@),
{
    let mut out: Vec<u8> = Vec::new();
    let mut i: usize = 0;
    while i < text.len()
        invariant
            i <= text.len(),
            out@ == without_whitespace(text@.take(i as int)),
        decreases text.len() - i,
    {
        let b = text[i];
        proof {
            reveal(Seq::filter);
            assert(text@.take(i + 1).drop_last() =~= text@.take(i as int));
        }
        if !is_whitespace(b) {
            out.push(b);
        }
        i += 1;
    }
    assert(text@.take(i as int) =~= text@);
    out
}

/// Writes `bytes` as hexadecimal text: two small digits for each byte.
pub fn encode(bytes: &[u8]) -> (text: String)
    ensures
        text@ == hex_text(bytes@),
{
    hex_encode(bytes)
}

/// Reads hexadecimal text back into bytes. White space anywhere in the
/// text is passed over; what is left must be an even number of
/// hexadecimal digits, in either case. The place in an error counts the
/// bytes that are left.
pub fn decode(text: &[u8]) -> (r: Result<Vec<u8>, HexError>)
    ensures
        match r {
            Ok(bytes) => decoded(text@) == Ok::<Seq<u8>, HexError>(bytes@),
            Err(e) => decoded(text@) == Err::<Seq<u8>, HexError>(e),
        },
{
    let digits = strip_whitespace(text);
    hex_decode(digits.as_slice())
}

/// Filtering a sequence with one more element at its end.
pub proof fn lemma_filter_push(s: Seq<u8>, b: u8, pred: spec_fn(u8) -> bool)
    ensures
        s.push(b).filter(pred) == if pred(b) {
            s.filter(pred).push(b)
        } else {
            s.filter(pred)
        },
{
    reveal(Seq::filter);
    assert(s.push(b).drop_last() =~= s);
}

/// A text without white space is left as it is.
pub proof fn lemma_without_whitespace_keeps_visible(text: Seq<u8>)
    requires
        forall|i: int| 0 <= i < text.len() ==> !is_ascii_whitespace(#[trigger] text[i]),
    ensures
        without_whitespace(text) == text,
    decreases text.len(),
{
    reveal(Seq::filter);
    if text.len() > 0 {
        lemma_without_whitespace_keeps_visible(text.drop_last());
    }
}

/// The digits that encoding writes are hexadecimal digits, two for each
/// byte, and none of them is white space.
pub proof fn lemma_hex_digits_are_digits(bytes: Seq<u8>)
    ensures
        hex_digits(bytes).len() == 2 * bytes.len(),
        all_hex_digits(hex_digits(bytes)),
        without_whitespace(hex_digits(bytes)) == hex_digits(bytes),
{
    let text = hex_digits(bytes);
    assert forall|i: int| 0 <= i < text.len() implies is_hex_digit(#[trigger] text[i])
        && !is_ascii_whitespace(text[i]) by {}
    lemma_without_whitespace_keeps_visible(text);
}

/// Encoded text, read as UTF-8 bytes, is the digits themselves.
pub proof fn lemma_hex_text_bytes(bytes: Seq<u8>)
    ensures
        vstd::utf8::encode_utf8(hex_text(bytes)) == hex_digits(bytes),
{
    let text = hex_text(bytes);
    let digits = hex_digits(bytes);
    assert forall|i: int| 0 <= i < text.len() implies 0 <= (#[trigger] text[i]) as nat <= 127
        && text[i] as u8 == digits[i] by {}
    vstd::utf8::is_ascii_chars_encode_utf8(text);
}

/// Decoding what was encoded gives the bytes back.
pub proof fn lemma_decode_encode(bytes: Seq<u8>)
    ensures
        decoded(hex_digits(bytes)) == Ok::<Seq<u8>, HexError>(bytes),
        decoded(vstd::utf8::encode_utf8(hex_text(bytes))) == Ok::<Seq<u8>, HexError>(bytes),
{
    let text = hex_digits(bytes);
    lemma_hex_digits_are_digits(bytes);
    lemma_hex_text_bytes(bytes);
    let back = Seq::new(text.len() / 2, |k: int| byte_of_pair(text, k));
    assert forall|k: int| 0 <= k < bytes.len() implies back[k] == bytes[k] by {}
    assert(back =~= bytes);
}

/// Decoding passes over white space: a text with one more byte of white
/// space put in at any place decodes as the text without it.
pub proof fn lemma_decode_ignores_whitespace(text: Seq<u8>, at: int, space: u8)
    requires
        0 <= at <= text.len(),
        is_ascii_whitespace(space),
    ensures
        without_whitespace(text.insert(at, space)) == without_whitespace(text),
        decoded(text.insert(at, space)) == decoded(text),
{
    let head = text.subrange(0, at);
    let tail = text.subrange(at, text.len() as int);
    lemma_filter_push(head, space, is_visible());
    Seq::filter_distributes_over_add(head.push(space), tail, is_visible());
    Seq::filter_distributes_over_add(head, tail, is_visible());
    assert(head + tail =~= text);
}

/// Decoding sees only what is no white space: two texts that differ in
/// their white space alone decode alike.
pub proof fn lemma_decode_sees_visible_bytes(a: Seq<u8>, b: Seq<u8>)
    requires
        without_whitespace(a) == without_whitespace(b),
    ensures
        decoded(a) == decoded(b),
{
}

} // verus!
