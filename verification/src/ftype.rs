//! The kind of a file, told from the end of its name.

use vstd::prelude::*;
use vstd::utf8::encode_scalar;
use vstd::utf8::encode_utf8;

verus! {

/// The kind of file that a name stands for.
#[derive(Debug, Clone, Copy, PartialEq, Eq, Structural)]
pub enum FType {
    /// The name ends in `.json`.
    Json,
    /// The name ends in `.msgpack` or `.mpk`.
    MessagePack,
    /// The name ends in none of these.
    Unknown,
}

/// `c` is the character `small`, or the capital letter of which `small`
/// is the small ASCII letter.
pub open spec fn matches_ignoring_case(c: char, small: char) -> bool {
    c == small || ('a' <= small <= 'z' && c as u32 + 0x20 == small as u32)
}

/// `name` ends with `ending`, where a letter of `name` may be a capital.
pub open spec fn name_ends_with(name: Seq<char>, ending: Seq<char>) -> bool {
    &&& ending.len() <= name.len()
    &&& forall|i: int|
        0 <= i < ending.len() ==> matches_ignoring_case(
            name[name.len() - ending.len() + i],
            #[trigger] ending[i],
        )
}

/// The ending `.json`.
pub open spec fn json_ending() -> Seq<char> {
    seq!['.', 'j', 's', 'o', 'n']
}

/// The ending `.msgpack`.
pub open spec fn msgpack_ending() -> Seq<char> {
    seq!['.', 'm', 's', 'g', 'p', 'a', 'c', 'k']
}

/// The ending `.mpk`.
pub open spec fn mpk_ending() -> Seq<char> {
    seq!['.', 'm', 'p', 'k']
}

/// The kind of the file named `name`: JSON where the name ends in
/// `.json`, MessagePack where it ends in `.msgpack` or `.mpk`, in capital
/// or small letters.
pub open spec fn kind_of_name(name: Seq<char>) -> FType {
    if name_ends_with(name, json_ending()) {
        FType::Json
    } else if name_ends_with(name, msgpack_ending()) || name_ends_with(name, mpk_ending()) {
        FType::MessagePack
    } else {
        FType::Unknown
    }
}

/// The kind of an optional file name: a missing name has no kind.
pub open spec fn kind_of_optional_name(name: Option<Seq<char>>) -> FType {
    match name {
        Some(n) => kind_of_name(n),
        None => FType::Unknown,
    }
}

/// An ASCII capital letter turned into its small letter; any other byte as it is.
spec fn ascii_lower(b: u8) -> u8 {
    if 0x41 <= b <= 0x5a {
        (b + 0x20) as u8
    } else {
        b
    }
}

/// The byte string `name` ends with `suffix`, where an ASCII letter
/// matches in either case.
spec fn bytes_end_with(name: Seq<u8>, suffix: Seq<u8>) -> bool {
    &&& suffix.len() <= name.len()
    &&& forall|i: int|
        0 <= i < suffix.len() ==> ascii_lower(name[name.len() - suffix.len() + i]) == ascii_lower(
            #[trigger] suffix[i],
        )
}

/// An ending of small ASCII letters and dots.
spec fn is_small_ending(ending: Seq<char>) -> bool {
    forall|i: int|
        0 <= i < ending.len() ==> (#[trigger] ending[i] == '.' || 'a' <= ending[i] <= 'z')
}

/// The bytes of an ending of ASCII characters.
spec fn ending_bytes(ending: Seq<char>) -> Seq<u8> {
    Seq::new(ending.len(), |i: int| ending[i] as u8)
}

proof fn lemma_encode_concat(a: Seq<char>, b: Seq<char>)
    ensures
        encode_utf8(a + b) == encode_utf8(a) + encode_utf8(b),
    decreases a.len(),
{
    if a.len() > 0 {
        lemma_encode_concat(a.drop_first(), b);
        assert((a + b).drop_first() =~= a.drop_first() + b);
    }
}

/// How a character compares with a character of an ending, by its bytes.
proof fn lemma_char_matches_by_byte(c: char, e: char)
    requires
        e == '.' || 'a' <= e <= 'z',
    ensures
        c as u32 <= 0x7f ==> c as u8 == c as u32 as u8,
        c as u32 <= 0x7f ==> (ascii_lower(c as u8) == ascii_lower(e as u8)
            <==> matches_ignoring_case(c, e)),
        c as u32 > 0x7f ==> !matches_ignoring_case(c, e),
        e as u8 <= 0x7f,
        ascii_lower(e as u8) <= 0x7f,
{
    vstd::utf8::char_u32_cast(c, c as u32);
    vstd::utf8::char_u32_cast(e, e as u32);
}

proof fn lemma_scalar_last_byte(c: u32)
    ensures
        c <= 0x7f ==> encode_scalar(c) == seq![c as u8],
        c > 0x7f ==> encode_scalar(c).len() >= 1 && encode_scalar(c).last() >= 0x80,
{
    assert(c <= 0x7f ==> (c & 0x7f) as u8 == c as u8) by (bit_vector);
    assert((0x80u8 | (c & 0x3f) as u8) >= 0x80) by (bit_vector);
}

/// The UTF-8 bytes of a name end with the bytes of its last character,
/// and only an ASCII character ends in a byte below 128.
proof fn lemma_encode_last(name: Seq<char>)
    requires
        name.len() > 0,
    ensures
        encode_utf8(name) == encode_utf8(name.drop_last()) + encode_scalar(name.last() as u32),
        name.last() as u32 <= 0x7f ==> encode_utf8(name) == encode_utf8(name.drop_last()).push(
            name.last() as u8,
        ),
        name.last() as u32 > 0x7f ==> encode_utf8(name).len() >= 1 && encode_utf8(name).last()
            >= 0x80,
{
    let c = name.last();
    let one = seq![c];
    lemma_encode_concat(name.drop_last(), one);
    assert(name.drop_last() + one =~= name);
    assert(one.drop_first() =~= Seq::<char>::empty());
    assert(encode_utf8(Seq::<char>::empty()) =~= Seq::<u8>::empty());
    lemma_scalar_last_byte(c as u32);
    lemma_char_matches_by_byte(c, '.');
}

proof fn lemma_bytes_end_with_push(s: Seq<u8>, x: u8, t: Seq<u8>, y: u8)
    ensures
        bytes_end_with(s.push(x), t.push(y)) <==> ascii_lower(x) == ascii_lower(y)
            && bytes_end_with(s, t),
{
    let sx = s.push(x);
    let ty = t.push(y);
    if bytes_end_with(sx, ty) {
        assert(ty[t.len() as int] == y);
        assert forall|i: int| 0 <= i < t.len() implies ascii_lower(s[s.len() - t.len() + i])
            == ascii_lower(#[trigger] t[i]) by {
            assert(ty[i] == t[i]);
        }
    }
    if ascii_lower(x) == ascii_lower(y) && bytes_end_with(s, t) {
        assert forall|i: int| 0 <= i < ty.len() implies ascii_lower(sx[sx.len() - ty.len() + i])
            == ascii_lower(#[trigger] ty[i]) by {}
    }
}

proof fn lemma_name_ends_with_last(name: Seq<char>, ending: Seq<char>)
    requires
        name.len() > 0,
        ending.len() > 0,
    ensures
        name_ends_with(name, ending) <==> matches_ignoring_case(name.last(), ending.last())
            && name_ends_with(name.drop_last(), ending.drop_last()),
{
    let n = name.drop_last();
    let e = ending.drop_last();
    if name_ends_with(name, ending) {
        assert forall|i: int| 0 <= i < e.len() implies matches_ignoring_case(
            n[n.len() - e.len() + i],
            #[trigger] e[i],
        ) by {}
    }
    if matches_ignoring_case(name.last(), ending.last()) && name_ends_with(n, e) {
        assert forall|i: int| 0 <= i < ending.len() implies matches_ignoring_case(
            name[name.len() - ending.len() + i],
            #[trigger] ending[i],
        ) by {
            if i < e.len() {
                assert(ending[i] == e[i]);
            }
        }
    }
}

/// Looking at the UTF-8 bytes of a name tells how the name ends.
proof fn lemma_bytes_end_like_name(name: Seq<char>, ending: Seq<char>)
    requires
        is_small_ending(ending),
    ensures
        bytes_end_with(encode_utf8(name), ending_bytes(ending)) <==> name_ends_with(name, ending),
    decreases ending.len(),
{
    let bytes = encode_utf8(name);
    let suffix = ending_bytes(ending);
    if ending.len() > 0 && name.len() > 0 {
        let c = name.last();
        let e = ending.last();
        let shorter = ending.drop_last();
        assert(is_small_ending(shorter));
        assert(suffix =~= ending_bytes(shorter).push(e as u8));
        lemma_encode_last(name);
        lemma_char_matches_by_byte(c, e);
        lemma_name_ends_with_last(name, ending);
        lemma_bytes_end_like_name(name.drop_last(), shorter);
        if c as u32 <= 0x7f {
            lemma_bytes_end_with_push(
                encode_utf8(name.drop_last()),
                c as u8,
                ending_bytes(shorter),
                e as u8,
            );
        } else {
            assert(ascii_lower(bytes.last()) != ascii_lower(suffix[suffix.len() - 1]));
        }
    }
}

fn to_ascii_lower(b: u8) -> (r: u8)
    ensures
        r == ascii_lower(b),
{
    if 0x41 <= b && b <= 0x5a {
        b + 0x20
    } else {
        b
    }
}

fn ends_with_ignore_ascii_case(name: &[u8], suffix: &[u8]) -> (r: bool)
    ensures
        r == bytes_end_with(name@, suffix@),
{
    let n = name.len();
    let m = suffix.len();
    if m > n {
        return false;
    }
    let start = n - m;
    let mut i: usize = 0;
    while i < m
        invariant
            i <= m,
            m <= n,
            start == n - m,
            n == name@.len(),
            m == suffix@.len(),
            forall|j: int|
                0 <= j < i ==> ascii_lower(name@[start + j]) == ascii_lower(#[trigger] suffix@[j]),
        decreases m - i,
    {
        if to_ascii_lower(name[start + i]) != to_ascii_lower(suffix[i]) {
            assert(ascii_lower(name@[name@.len() - suffix@.len() + i]) != ascii_lower(
                suffix@[i as int],
            ));
            return false;
        }
        i += 1;
    }
    true
}

impl FType {
    /// Tells the kind of a file from the end of its name: `.json` is JSON,
    /// `.msgpack` and `.mpk` are MessagePack, in capital or small letters.
    pub fn from_fname(fname: &str) -> (kind: FType)
        ensures
            kind == kind_of_name(fname@),
    {
        let name = fname.as_bytes();
        let json: [u8; 5] = [0x2e, 0x6a, 0x73, 0x6f, 0x6e];
        let msgpack: [u8; 8] = [0x2e, 0x6d, 0x73, 0x67, 0x70, 0x61, 0x63, 0x6b];
        let mpk: [u8; 4] = [0x2e, 0x6d, 0x70, 0x6b];
        proof {
            assert(json@ =~= ending_bytes(json_ending()));
            assert(msgpack@ =~= ending_bytes(msgpack_ending()));
            assert(mpk@ =~= ending_bytes(mpk_ending()));
            lemma_bytes_end_like_name(fname@, json_ending());
            lemma_bytes_end_like_name(fname@, msgpack_ending());
            lemma_bytes_end_like_name(fname@, mpk_ending());
        }
        if ends_with_ignore_ascii_case(name, json.as_slice()) {
            FType::Json
        } else if ends_with_ignore_ascii_case(name, msgpack.as_slice())
            || ends_with_ignore_ascii_case(name, mpk.as_slice()) {
            FType::MessagePack
        } else {
            FType::Unknown
        }
    }
}

} // verus!
