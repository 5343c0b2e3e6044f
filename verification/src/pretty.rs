//! Hexadecimal text laid out in groups for reading.

use vstd::prelude::*;
use vstd::utf8::encode_utf8;
use crate::error::Error;
use crate::error::HexError;
use crate::hex_codec::decoded;
use crate::hex_codec::hex_digits;
use crate::hex_codec::is_ascii_whitespace;
use crate::hex_codec::is_visible;
use crate::hex_codec::lemma_decode_encode;
use crate::hex_codec::lemma_filter_push;
use crate::hex_codec::without_whitespace;

verus! {

/// The number of bytes in a group.
pub const GROUP_LEN: usize = 8;

/// The number of groups on a line.
pub const GROUPS_PER_LINE: usize = 8;

/// The length of a text of `n` bytes once it is grouped: the bytes, and
/// one separator between each group and the next.
pub open spec fn grouped_len(n: int) -> int {
    if n <= 0 {
        0
    } else {
        n + (n - 1) / 8
    }
}

/// `text` in groups of eight bytes, the last group shorter where the
/// text runs out. After each group but the last stands one separator: a
/// line feed after every eighth group, a space after the others.
///
/// A group with its separator takes nine places, so the place `p` holds
/// a separator where `p % 9 == 8`, and otherwise the byte `p - p / 9` of
/// the text.
pub open spec fn grouped(text: Seq<u8>) -> Seq<u8> {
    Seq::new(
        grouped_len(text.len() as int) as nat,
        |p: int|
            if p % 9 == 8 {
                if (p / 9) % 8 == 7 {
                    0x0au8
                } else {
                    0x20u8
                }
            } else {
                text[p - p / 9]
            },
    )
}

/// Writes the hexadecimal text `in_` to `out` in groups of eight digits,
/// which are four bytes of data: a space between two groups, and a line
/// feed in its place after every eighth group. Nothing follows the last
/// group. Writing to memory cannot fail, so the result is always `Ok`.
pub fn write_pretty_hex(out: &mut Vec<u8>, in_: &str) -> (r: Result<(), Error>)
    ensures
        r is Ok,
        final(out)@ == old(out)@ + grouped(encode_utf8(in_@)),
{
    let text = in_.as_bytes();
    let n = text.len();
    let ghost before = out@;
    let ghost whole = grouped(text@);
    let mut j: usize = 0;
    while j < n
        invariant
            j <= n,
            n == text@.len(),
            whole == grouped(text@),
            out@ == before + whole.take(grouped_len(j as int)),
        decreases n - j,
    {
        if j > 0 && j % GROUP_LEN == 0 {
            if (j / GROUP_LEN) % GROUPS_PER_LINE == 0 {
                out.push(0x0a);
            } else {
                out.push(0x20);
            }
        }
        out.push(text[j]);
        j += 1;
    }
    Ok(())
}

proof fn lemma_grouped_prefix(text: Seq<u8>, j: int)
    requires
        0 <= j <= text.len(),
    ensures
        0 <= grouped_len(j) <= grouped_len(text.len() as int),
        without_whitespace(grouped(text).take(grouped_len(j))) == without_whitespace(text.take(j)),
    decreases j,
{
    let whole = grouped(text);
    if j == 0 {
        assert(whole.take(0) =~= text.take(0));
    } else {
        lemma_grouped_prefix(text, j - 1);
        let p = grouped_len(j - 1);
        let b = text[j - 1];
        assert(text.take(j) =~= text.take(j - 1).push(b));
        lemma_filter_push(text.take(j - 1), b, is_visible());
        if j - 1 > 0 && (j - 1) % 8 == 0 {
            let sep = whole[p];
            assert(whole.take(grouped_len(j)) =~= whole.take(p).push(sep).push(b));
            lemma_filter_push(whole.take(p), sep, is_visible());
            lemma_filter_push(whole.take(p).push(sep), b, is_visible());
        } else {
            assert(whole.take(grouped_len(j)) =~= whole.take(p).push(b));
            lemma_filter_push(whole.take(p), b, is_visible());
        }
    }
}

/// Grouping adds white space and nothing else.
pub proof fn lemma_grouping_adds_whitespace_only(text: Seq<u8>)
    ensures
        without_whitespace(grouped(text)) == without_whitespace(text),
        without_whitespace(grouped(text).push(0x0au8)) == without_whitespace(text),
{
    lemma_grouped_prefix(text, text.len() as int);
    assert(grouped(text).take(grouped_len(text.len() as int)) =~= grouped(text));
    assert(text.take(text.len() as int) =~= text);
    lemma_filter_push(grouped(text), 0x0au8, is_visible());
}

/// Grouped hexadecimal text, with or without a line feed at its end,
/// decodes to the bytes that were encoded.
pub proof fn lemma_grouped_text_decodes(bytes: Seq<u8>)
    ensures
        decoded(grouped(hex_digits(bytes))) == Ok::<Seq<u8>, HexError>(bytes),
        decoded(grouped(hex_digits(bytes)).push(0x0au8)) == Ok::<Seq<u8>, HexError>(bytes),
        decoded(hex_digits(bytes).push(0x0au8)) == Ok::<Seq<u8>, HexError>(bytes),
{
    lemma_grouping_adds_whitespace_only(hex_digits(bytes));
    lemma_filter_push(hex_digits(bytes), 0x0au8, is_visible());
    lemma_decode_encode(bytes);
}

/// The layout of forty bytes: their eighty digits stand in ten groups of
/// eight, a line feed between the eighth and the ninth group, a space
/// between any other two, and nothing after the last.
pub proof fn lemma_forty_bytes_grouped(bytes: Seq<u8>)
    requires
        bytes.len() == 40,
    ensures
        grouped(hex_digits(bytes)).len() == 89,
        forall|g: int, k: int|
            0 <= g < 10 && 0 <= k < 8 ==> #[trigger] grouped(hex_digits(bytes))[9 * g + k]
                == hex_digits(bytes)[8 * g + k],
        forall|g: int|
            0 <= g < 9 ==> #[trigger] grouped(hex_digits(bytes))[9 * g + 8] == if g == 7 {
                0x0au8
            } else {
                0x20u8
            },
{
    let text = hex_digits(bytes);
    let out = grouped(text);
    assert forall|g: int, k: int| 0 <= g < 10 && 0 <= k < 8 implies #[trigger] out[9 * g + k]
        == text[8 * g + k] by {}
    assert forall|g: int| 0 <= g < 9 implies #[trigger] out[9 * g + 8] == if g == 7 {
        0x0au8
    } else {
        0x20u8
    } by {}
}

} // verus!
