//! One run from checked arguments to written output.

use vstd::prelude::*;
use vstd::utf8::encode_utf8;
use crate::cli::Args;
use crate::cli::ArgsView;
use crate::cli::flag_conflict;
use crate::cli::input_conflict;
use crate::error::Error;
use crate::error::ErrorView;
use crate::transcode::json_to_mp;
use crate::transcode::json_to_mp_outcome;
use crate::transcode::mp_to_json;
use crate::transcode::mp_to_json_outcome;
use crate::transcode::Outcome;

verus! {

/// The bytes that a run converts: the text given with the arguments where
/// there is one, else what was read.
pub open spec fn input_of(args: ArgsView, source: Seq<u8>) -> Seq<u8> {
    match args.input {
        Some(text) => encode_utf8(text),
        None => source,
    }
}

/// Whether the MessagePack side of a run is hexadecimal text. Text given
/// with the arguments cannot hold raw bytes, so on the way to JSON it is
/// read as hexadecimal text whether `hex` is set or not.
pub open spec fn reads_hex(args: ArgsView) -> bool {
    args.hex || args.input is Some
}

/// What a run with checked arguments does.
pub open spec fn conversion_outcome(args: ArgsView, source: Seq<u8>) -> Outcome {
    if args.to_json {
        mp_to_json_outcome(input_of(args, source), reads_hex(args), args.pretty)
    } else {
        json_to_mp_outcome(input_of(args, source), args.hex, args.pretty)
    }
}

/// What a run does: arguments that do not pass the check fail the run
/// before anything is written; else the conversion in the direction that
/// the check settled decides.
pub open spec fn run_outcome(args: ArgsView, source: Seq<u8>) -> Outcome {
    match args.validated() {
        Err(e) => Outcome { written: Seq::empty(), failure: Some(e) },
        Ok(checked) => conversion_outcome(checked, source),
    }
}

/// Runs one conversion. The arguments are checked and their direction is
/// settled as by [`Args::validate_update`]; then the input is converted
/// and written to the end of `output`.
///
/// `source` holds what was read from the input file or from the standard
/// input. Where the input was given as text with the arguments, that text
/// is converted and `source` is not looked at.
pub fn main_runner(args: &mut Args, source: &[u8], output: &mut Vec<u8>) -> (r: Result<(), Error>)
    ensures
        final(output)@ == old(output)@ + run_outcome(old(args)@, source@).written,
        match r {
            Ok(()) => run_outcome(old(args)@, source@).failure is None,
            Err(e) => run_outcome(old(args)@, source@).failure == Some(e@),
        },
        match old(args)@.validated() {
            Ok(checked) => final(args)@ == checked,
            Err(_) => final(args)@ == old(args)@,
        },
{
    if let Err(e) = args.validate_update() {
        return Err(e);
    }
    let use_hex = args.hex || args.input.is_some();
    let input: &[u8] = match &args.input {
        Some(text) => text.as_str().as_bytes(),
        None => source,
    };
    if args.to_json {
        mp_to_json(input, output, use_hex, args.pretty)
    } else {
        json_to_mp(input, output, args.hex, args.pretty)
    }
}

/// Both direction flags together fail the run as a conflict of arguments,
/// with exit status 4 and before anything is converted or written,
/// whatever the other arguments and the input are.
pub proof fn lemma_both_flags_conflict(args: ArgsView, source: Seq<u8>)
    requires
        args.to_json,
        args.to_msgpack,
    ensures
        run_outcome(args, source).written == Seq::<u8>::empty(),
        run_outcome(args, source).failure == Some(flag_conflict()) || run_outcome(
            args,
            source,
        ).failure == Some(input_conflict()),
        run_outcome(args, source).failure->0.exit_code() == 4,
{
}

/// Text given with the arguments is read as hexadecimal text on the way
/// to JSON, with or without the `hex` flag.
pub proof fn lemma_inline_text_is_hex(args: ArgsView, source: Seq<u8>)
    requires
        args.validated() is Ok,
        args.validated()->Ok_0.to_json,
        args.input is Some,
    ensures
        run_outcome(args, source) == mp_to_json_outcome(
            encode_utf8(args.input->0),
            true,
            args.pretty,
        ),
{
}

} // verus!
