use mpk::cli::infer_direction;
use mpk::cli::resolve_direction;
use mpk::Args;
use mpk::Direction;
use mpk::Error;
use mpk::FType;
use mpk::InputSource;
use mpk::OutputSink;

fn no_args() -> Args {
    Args {
        input_file: None,
        output_file: None,
        input: None,
        to_json: false,
        to_msgpack: false,
        hex: false,
        pretty: false,
        verbose: false,
    }
}

fn name(s: &str) -> Option<String> {
    Some(s.to_string())
}

fn flag_conflict() -> Error {
    Error::ArgConflict("--to-json".to_string(), "--to-msgpack".to_string())
}

fn input_conflict() -> Error {
    Error::ArgConflict("INPUT_FILE".to_string(), "--text".to_string())
}

#[test]
fn both_direction_flags_are_a_conflict() {
    let mut args = Args { to_json: true, to_msgpack: true, ..no_args() };
    let before = args.clone();
    let r = args.validate_update();
    assert_eq!(r, Err(flag_conflict()));
    assert_eq!(r.unwrap_err().exit_code(), 4);
    assert_eq!(args, before);
}

#[test]
fn both_direction_flags_are_a_conflict_whatever_the_names_say() {
    let mut args = Args {
        input_file: name("a.json"),
        output_file: name("b.mpk"),
        to_json: true,
        to_msgpack: true,
        ..no_args()
    };
    assert_eq!(args.validate_update(), Err(flag_conflict()));
}

#[test]
fn a_file_and_a_text_are_a_conflict() {
    let mut args = Args {
        input_file: name("a.json"),
        input: name("{}"),
        to_msgpack: true,
        ..no_args()
    };
    let before = args.clone();
    let r = args.validate_update();
    assert_eq!(r, Err(input_conflict()));
    assert_eq!(r.unwrap_err().exit_code(), 4);
    assert_eq!(args, before);
}

#[test]
fn two_inputs_are_refused_before_two_flags() {
    let mut args = Args {
        input_file: name("a.json"),
        input: name("{}"),
        to_json: true,
        to_msgpack: true,
        ..no_args()
    };
    assert_eq!(args.validate_update(), Err(input_conflict()));
}

#[test]
fn a_flag_settles_the_direction() {
    let mut args = Args { to_json: true, ..no_args() };
    assert_eq!(args.validate_update(), Ok(()));
    assert_eq!(args, Args { to_json: true, ..no_args() });
    let mut args = Args { to_msgpack: true, ..no_args() };
    assert_eq!(args.validate_update(), Ok(()));
    assert_eq!(args, Args { to_msgpack: true, ..no_args() });
}

#[test]
fn a_flag_wins_over_the_names() {
    let mut args = Args {
        input_file: name("a.json"),
        output_file: name("b.msgpack"),
        to_json: true,
        ..no_args()
    };
    assert_eq!(args.validate_update(), Ok(()));
    assert!(args.to_json);
    assert!(!args.to_msgpack);
}

#[test]
fn the_input_name_settles_the_direction() {
    let mut args = Args { input_file: name("a.json"), ..no_args() };
    assert_eq!(args.validate_update(), Ok(()));
    assert_eq!(args, Args { input_file: name("a.json"), to_msgpack: true, ..no_args() });
    let mut args = Args { input_file: name("a.mpk"), ..no_args() };
    assert_eq!(args.validate_update(), Ok(()));
    assert_eq!(args, Args { input_file: name("a.mpk"), to_json: true, ..no_args() });
}

#[test]
fn the_output_name_settles_the_direction() {
    let mut args = Args { output_file: name("b.MSGPACK"), ..no_args() };
    assert_eq!(args.validate_update(), Ok(()));
    assert!(args.to_msgpack && !args.to_json);
    let mut args = Args { output_file: name("b.Json"), ..no_args() };
    assert_eq!(args.validate_update(), Ok(()));
    assert!(args.to_json && !args.to_msgpack);
}

#[test]
fn names_that_ask_for_msgpack_are_looked_at_first() {
    let mut args = Args {
        input_file: name("a.json"),
        output_file: name("b.json"),
        ..no_args()
    };
    assert_eq!(args.validate_update(), Ok(()));
    assert!(args.to_msgpack && !args.to_json);
    let mut args = Args {
        input_file: name("a.mpk"),
        output_file: name("b.mpk"),
        ..no_args()
    };
    assert_eq!(args.validate_update(), Ok(()));
    assert!(args.to_msgpack && !args.to_json);
}

#[test]
fn names_that_tell_nothing_leave_the_direction_open() {
    let mut args = no_args();
    let r = args.validate_update();
    assert_eq!(r, Err(Error::NoDirection));
    assert_eq!(r.unwrap_err().exit_code(), 6);
    assert_eq!(args, no_args());
    let mut args = Args {
        input_file: name("a.txt"),
        output_file: name("b"),
        hex: true,
        pretty: true,
        ..no_args()
    };
    let before = args.clone();
    assert_eq!(args.validate_update(), Err(Error::NoDirection));
    assert_eq!(args, before);
}

#[test]
fn a_text_given_with_the_arguments_has_no_name() {
    let mut args = Args { input: name("data.json"), ..no_args() };
    assert_eq!(args.validate_update(), Err(Error::NoDirection));
}

#[test]
fn the_other_flags_do_not_change_the_direction() {
    for hex in [false, true] {
        for pretty in [false, true] {
            for verbose in [false, true] {
                let mut args = Args {
                    input_file: name("a.mpk"),
                    hex,
                    pretty,
                    verbose,
                    ..no_args()
                };
                assert_eq!(args.validate_update(), Ok(()));
                assert!(args.to_json && !args.to_msgpack);
                assert_eq!((args.hex, args.pretty, args.verbose), (hex, pretty, verbose));
            }
        }
    }
}

#[test]
fn the_same_arguments_give_the_same_direction() {
    for _ in 0..3 {
        assert_eq!(
            resolve_direction(false, false, &name("x.mpk"), &None),
            Ok(Direction::BinaryToText)
        );
        assert_eq!(
            resolve_direction(false, false, &None, &None),
            Err(Error::NoDirection)
        );
    }
}

#[test]
fn checked_arguments_pass_the_check_again_unchanged() {
    let mut args = Args { output_file: name("b.json"), ..no_args() };
    assert_eq!(args.validate_update(), Ok(()));
    let once = args.clone();
    assert_eq!(args.validate_update(), Ok(()));
    assert_eq!(args, once);
}

#[test]
fn resolve_direction_follows_flags_then_names() {
    assert_eq!(resolve_direction(true, true, &None, &None), Err(flag_conflict()));
    assert_eq!(resolve_direction(true, false, &None, &None), Ok(Direction::BinaryToText));
    assert_eq!(resolve_direction(false, true, &None, &None), Ok(Direction::TextToBinary));
    assert_eq!(
        resolve_direction(false, true, &name("a.mpk"), &name("b.json")),
        Ok(Direction::TextToBinary)
    );
    assert_eq!(
        resolve_direction(false, false, &name("a.mpk"), &name("b.json")),
        Ok(Direction::BinaryToText)
    );
    assert_eq!(
        resolve_direction(false, false, &name("a.json"), &name("b.json")),
        Ok(Direction::TextToBinary)
    );
    assert_eq!(
        resolve_direction(false, false, &name("a"), &name("b")),
        Err(Error::NoDirection)
    );
}

#[test]
fn infer_direction_covers_every_pair_of_kinds() {
    let (json, msgpack, unknown) = (FType::Json, FType::MessagePack, FType::Unknown);
    let to_binary = Some(Direction::TextToBinary);
    let to_text = Some(Direction::BinaryToText);
    assert_eq!(infer_direction(json, json), to_binary);
    assert_eq!(infer_direction(json, msgpack), to_binary);
    assert_eq!(infer_direction(json, unknown), to_binary);
    assert_eq!(infer_direction(msgpack, json), to_text);
    assert_eq!(infer_direction(msgpack, msgpack), to_binary);
    assert_eq!(infer_direction(msgpack, unknown), to_text);
    assert_eq!(infer_direction(unknown, json), to_text);
    assert_eq!(infer_direction(unknown, msgpack), to_binary);
    assert_eq!(infer_direction(unknown, unknown), None);
}

#[test]
fn the_input_is_the_file_then_the_text_then_the_standard_input() {
    let args = Args { input_file: name("a.json"), ..no_args() };
    assert_eq!(args.get_input(), InputSource::File("a.json".to_string()));
    let args = Args { input: name("{}"), ..no_args() };
    assert_eq!(args.get_input(), InputSource::Text("{}".to_string()));
    let args = Args { input_file: name("a.json"), input: name("{}"), ..no_args() };
    assert_eq!(args.get_input(), InputSource::File("a.json".to_string()));
    assert_eq!(no_args().get_input(), InputSource::Stdin);
}

#[test]
fn the_output_is_the_file_or_the_standard_output() {
    let args = Args { output_file: name("b.mpk"), ..no_args() };
    assert_eq!(args.get_output(), OutputSink::File("b.mpk".to_string()));
    assert_eq!(no_args().get_output(), OutputSink::Stdout);
}
