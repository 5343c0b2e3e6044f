use mpk::Error;
use mpk::HexError;

fn every_category() -> Vec<(Error, u8)> {
    vec![
        (Error::ArgConflict("a".to_string(), "b".to_string()), 4),
        (Error::NoDirection, 6),
        (Error::NoInput, 20),
        (Error::Io("broken pipe".to_string()), 30),
        (Error::File("in.json".to_string(), "not found".to_string()), 31),
        (Error::MessagePak("bad marker".to_string()), 40),
        (Error::Json("bad token".to_string()), 41),
        (Error::Hex(HexError::OddLength), 42),
        (Error::Other("something".to_string()), 90),
    ]
}

#[test]
fn every_category_has_its_exit_status() {
    for (e, code) in every_category() {
        assert_eq!(e.exit_code(), code);
    }
}

#[test]
fn no_two_categories_share_an_exit_status_and_none_is_zero() {
    let all = every_category();
    assert_eq!(all.len(), 9);
    for (i, (a, _)) in all.iter().enumerate() {
        assert_ne!(a.exit_code(), 0);
        for (b, _) in all.iter().skip(i + 1) {
            assert_ne!(a.exit_code(), b.exit_code());
        }
    }
}

#[test]
fn the_exit_status_does_not_depend_on_what_a_failure_holds() {
    assert_eq!(Error::Json(String::new()).exit_code(), 41);
    assert_eq!(Error::Json("x".repeat(100)).exit_code(), 41);
    assert_eq!(
        Error::Hex(HexError::InvalidHexCharacter { c: 'z', index: 3 }).exit_code(),
        42
    );
    assert_eq!(Error::Hex(HexError::InvalidStringLength).exit_code(), 42);
}

#[test]
fn every_category_has_its_message() {
    assert_eq!(
        Error::ArgConflict("--to-json".to_string(), "--to-msgpack".to_string()).message(),
        "Both --to-json and --to-msgpack given, but only one is allowed at a time"
    );
    assert_eq!(
        Error::NoDirection.message(),
        "Could not determine conversion direction. Specify '--to-json' or '--to-msgpack' ('-j'/'-m')."
    );
    assert_eq!(Error::NoInput.message(), "No input is present");
    assert_eq!(
        Error::Io("broken pipe".to_string()).message(),
        "IO error: broken pipe"
    );
    assert_eq!(
        Error::File("in.json".to_string(), "not found".to_string()).message(),
        "Error reading 'in.json': not found"
    );
    assert_eq!(
        Error::MessagePak("bad marker".to_string()).message(),
        "Unable to parse MessagePack input: bad marker"
    );
    assert_eq!(
        Error::Json("bad token".to_string()).message(),
        "JSON error, bad token"
    );
    assert_eq!(Error::Other("something".to_string()).message(), "something");
    assert_eq!(Error::Other(String::new()).message(), "");
}

#[test]
fn a_hex_failure_is_reported_in_the_words_of_the_codec() {
    assert_eq!(
        Error::Hex(HexError::OddLength).message(),
        "Invalid hex: Odd number of digits"
    );
    assert_eq!(
        Error::Hex(HexError::InvalidStringLength).message(),
        "Invalid hex: Invalid string length"
    );
    assert_eq!(
        Error::Hex(HexError::InvalidHexCharacter { c: 'g', index: 7 }).message(),
        "Invalid hex: Invalid character 'g' at position 7"
    );
    assert_eq!(
        Error::Hex(HexError::InvalidHexCharacter { c: '\n', index: 5 }).message(),
        "Invalid hex: Invalid character '\\n' at position 5"
    );
}
