use mpk::hex_codec::decode;
use mpk::hex_codec::encode;
use mpk::hex_codec::strip_whitespace;
use mpk::write_pretty_hex;
use mpk::HexError;

#[test]
fn encode_writes_two_small_digits_for_each_byte() {
    assert_eq!(encode(&[]), "");
    assert_eq!(encode(&[0x00]), "00");
    assert_eq!(encode(&[0xde, 0xad, 0xbe, 0xef]), "deadbeef");
    assert_eq!(encode(&[1, 2, 3, 15, 16]), "0102030f10");
    assert_eq!(encode(&[0xff, 0x0a, 0xa0]), "ff0aa0");
    assert_eq!(encode(b"Hello world!"), "48656c6c6f20776f726c6421");
}

#[test]
fn decode_reads_digits_in_either_case() {
    assert_eq!(decode(b""), Ok(vec![]));
    assert_eq!(decode(b"deadbeef"), Ok(vec![0xde, 0xad, 0xbe, 0xef]));
    assert_eq!(decode(b"DEADBEEF"), Ok(vec![0xde, 0xad, 0xbe, 0xef]));
    assert_eq!(decode(b"dEaDbEeF"), Ok(vec![0xde, 0xad, 0xbe, 0xef]));
    assert_eq!(decode(b"0009afAF"), Ok(vec![0x00, 0x09, 0xaf, 0xaf]));
}

#[test]
fn decode_passes_over_white_space() {
    assert_eq!(decode(b"de ad\nbe ef"), decode(b"deadbeef"));
    assert_eq!(decode(b"de ad\nbe ef"), Ok(vec![0xde, 0xad, 0xbe, 0xef]));
    assert_eq!(decode(b" \t\r\n\x0cd e\ta\rd\n\x0c"), Ok(vec![0xde, 0xad]));
    assert_eq!(decode(b" \n\t "), Ok(vec![]));
}

#[test]
fn decode_splits_a_pair_of_digits_across_white_space() {
    assert_eq!(decode(b"d e a d"), Ok(vec![0xde, 0xad]));
}

#[test]
fn decode_refuses_an_odd_number_of_digits() {
    assert_eq!(decode(b"123"), Err(HexError::OddLength));
    assert_eq!(decode(b"1"), Err(HexError::OddLength));
    assert_eq!(decode(b"1 2 3"), Err(HexError::OddLength));
}

#[test]
fn an_odd_number_of_bytes_is_refused_before_a_byte_that_is_no_digit() {
    assert_eq!(decode(b"zz1"), Err(HexError::OddLength));
    assert_eq!(decode(b"xyz"), Err(HexError::OddLength));
}

#[test]
fn decode_refuses_the_first_byte_that_is_no_digit() {
    assert_eq!(
        decode(b"foo!"),
        Err(HexError::InvalidHexCharacter { c: 'o', index: 1 })
    );
    assert_eq!(
        decode(b"12g4"),
        Err(HexError::InvalidHexCharacter { c: 'g', index: 2 })
    );
    assert_eq!(
        decode(b"zz"),
        Err(HexError::InvalidHexCharacter { c: 'z', index: 0 })
    );
    assert_eq!(
        decode(b"0x41"),
        Err(HexError::InvalidHexCharacter { c: 'x', index: 1 })
    );
}

#[test]
fn the_place_of_a_bad_byte_counts_what_is_left_without_white_space() {
    assert_eq!(
        decode(b"de ad\nbe eg"),
        Err(HexError::InvalidHexCharacter { c: 'g', index: 7 })
    );
}

#[test]
fn bytes_next_to_the_digits_are_no_digits() {
    for bad in [b'/', b':', b'@', b'G', b'`', b'g'] {
        assert_eq!(
            decode(&[b'0', bad]),
            Err(HexError::InvalidHexCharacter { c: bad as char, index: 1 })
        );
    }
}

#[test]
fn a_byte_above_ascii_is_shown_as_the_character_of_its_number() {
    assert_eq!(
        decode(&[0xe9, b'0']),
        Err(HexError::InvalidHexCharacter { c: '\u{e9}', index: 0 })
    );
}

#[test]
fn other_control_bytes_are_no_white_space() {
    assert_eq!(
        decode(b"de\x0bad"),
        Err(HexError::OddLength)
    );
    assert_eq!(
        decode(b"de\x0b\x0bad"),
        Err(HexError::InvalidHexCharacter { c: '\x0b', index: 2 })
    );
    assert_eq!(
        decode(b"de\x00\x00ad"),
        Err(HexError::InvalidHexCharacter { c: '\0', index: 2 })
    );
}

#[test]
fn strip_whitespace_keeps_the_other_bytes_in_order() {
    assert_eq!(strip_whitespace(b""), Vec::<u8>::new());
    assert_eq!(strip_whitespace(b"abc"), b"abc".to_vec());
    assert_eq!(strip_whitespace(b" a\tb\nc\r\x0c"), b"abc".to_vec());
    assert_eq!(strip_whitespace(b"\x0b \x00"), vec![0x0b, 0x00]);
    assert_eq!(strip_whitespace(b"   "), Vec::<u8>::new());
}

#[test]
fn decoding_what_was_encoded_gives_the_bytes_back() {
    let all: Vec<u8> = (0..=255u8).collect();
    assert_eq!(decode(encode(&all).as_bytes()), Ok(all.clone()));
    let empty: Vec<u8> = Vec::new();
    assert_eq!(decode(encode(&empty).as_bytes()), Ok(empty));
    assert_eq!(encode(&all).len(), 512);
}

fn grouped(text: &str) -> String {
    let mut out = Vec::new();
    assert_eq!(write_pretty_hex(&mut out, text), Ok(()));
    String::from_utf8(out).unwrap()
}

#[test]
fn forty_bytes_make_ten_groups_of_eight_digits() {
    let bytes: Vec<u8> = (0..40u8).collect();
    let text = encode(&bytes);
    let out = grouped(&text);
    assert_eq!(
        out,
        "00010203 04050607 08090a0b 0c0d0e0f 10111213 14151617 18191a1b 1c1d1e1f\n\
         20212223 24252627"
    );
    assert_eq!(out.len(), 89);
    let lines: Vec<&str> = out.split('\n').collect();
    assert_eq!(lines.len(), 2);
    let first: Vec<&str> = lines[0].split(' ').collect();
    let second: Vec<&str> = lines[1].split(' ').collect();
    assert_eq!(first.len(), 8);
    assert_eq!(second.len(), 2);
    for group in first.iter().chain(second.iter()) {
        assert_eq!(group.len(), 8);
    }
    assert!(!out.ends_with(' '));
    assert!(!out.ends_with('\n'));
}

#[test]
fn short_texts_are_one_group() {
    assert_eq!(grouped(""), "");
    assert_eq!(grouped("a"), "a");
    assert_eq!(grouped("0123456"), "0123456");
    assert_eq!(grouped("01234567"), "01234567");
}

#[test]
fn the_last_group_may_be_short() {
    assert_eq!(grouped("012345678"), "01234567 8");
    assert_eq!(grouped("0123456789abcdef0"), "01234567 89abcdef 0");
}

#[test]
fn a_full_line_has_no_separator_after_it() {
    let text = "0".repeat(64);
    let out = grouped(&text);
    assert_eq!(out.len(), 71);
    assert_eq!(out, ["00000000"; 8].join(" "));
}

#[test]
fn groups_are_counted_over_the_whole_text() {
    let text = "0123456789abcdef".repeat(9);
    let out = grouped(&text);
    let line = "01234567 89abcdef 01234567 89abcdef 01234567 89abcdef 01234567 89abcdef";
    assert_eq!(out, format!("{}\n{}\n01234567 89abcdef", line, line));
}

#[test]
fn grouping_is_by_bytes_whatever_they_hold() {
    assert_eq!(grouped("ab cd ef gh"), "ab cd ef  gh");
}

#[test]
fn grouped_text_is_written_to_the_end_of_what_is_there() {
    let mut out = b"> ".to_vec();
    assert_eq!(write_pretty_hex(&mut out, "0123456789"), Ok(()));
    assert_eq!(out, b"> 01234567 89".to_vec());
}

#[test]
fn grouped_text_decodes_to_the_bytes() {
    let bytes: Vec<u8> = (0..=255u8).collect();
    let out = grouped(&encode(&bytes));
    assert_eq!(decode(out.as_bytes()), Ok(bytes));
}
