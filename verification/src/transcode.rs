//! The two conversions.
//!
//! A conversion reads one value in the source format and writes it in
//! the other, piece by piece, without building the value in between. Where
//! the MessagePack side is hexadecimal text, the bytes are decoded before
//! the conversion, or encoded after it.
//!
//! A failed conversion is charged to one side. The source is read once
//! more, this time written back in its own format with the output thrown
//! away: if that fails too, the source is at fault, otherwise the format
//! that was to be written. A MessagePack value that JSON cannot hold, such
//! as a map with a key that is no text, is therefore refused as a JSON
//! failure.

use vstd::prelude::*;
use crate::error::Error;
use crate::error::ErrorView;
use crate::error::HexError;
use crate::hex_codec::decode;
use crate::hex_codec::decoded;
use crate::hex_codec::encode;
use crate::hex_codec::hex_digits;
use crate::hex_codec::lemma_hex_text_bytes;
use crate::pretty::grouped;
use crate::pretty::lemma_grouped_text_decodes;
use crate::pretty::write_pretty_hex;

verus! {

/// What the conversion of the MessagePack bytes `data` to JSON on one line
/// writes, and the cause of its failure where it fails.
pub uninterp spec fn json_from_msgpack(data: Seq<u8>) -> (Seq<u8>, Option<Seq<char>>);

/// What the conversion of the MessagePack bytes `data` to indented JSON
/// writes, and the cause of its failure where it fails.
pub uninterp spec fn pretty_json_from_msgpack(data: Seq<u8>) -> (Seq<u8>, Option<Seq<char>>);

/// What the conversion of the JSON `text` to MessagePack writes, and the
/// cause of its failure where it fails.
pub uninterp spec fn msgpack_from_json(text: Seq<u8>) -> (Seq<u8>, Option<Seq<char>>);

/// Whether the MessagePack bytes `data` can be read and written back as
/// MessagePack.
pub uninterp spec fn msgpack_reads(data: Seq<u8>) -> bool;

/// Whether the JSON `text` can be read and written back as JSON.
pub uninterp spec fn json_reads(text: Seq<u8>) -> bool;

/// What a conversion does: the bytes it writes, and its failure if it fails.
pub struct Outcome {
    pub written: Seq<u8>,
    pub failure: Option<ErrorView>,
}

/// The failure of a conversion from MessagePack to JSON: it is a
/// MessagePack failure where the source does not read, else a JSON failure.
pub open spec fn binary_to_text_failure_of(source_reads: bool, cause: Seq<char>) -> ErrorView {
    if source_reads {
        ErrorView::Json(cause)
    } else {
        ErrorView::MessagePak(cause)
    }
}

/// The failure of a conversion from JSON to MessagePack: it is a JSON
/// failure where the source does not read, else a MessagePack failure.
pub open spec fn text_to_binary_failure_of(source_reads: bool, cause: Seq<char>) -> ErrorView {
    if source_reads {
        ErrorView::MessagePak(cause)
    } else {
        ErrorView::Json(cause)
    }
}

/// Hexadecimal text as it is written out: the digits of `bytes`, in
/// groups where `pretty` is set, and one line feed after them.
pub open spec fn hex_frame(bytes: Seq<u8>, pretty: bool) -> Seq<u8> {
    if pretty {
        grouped(hex_digits(bytes)).push(0x0au8)
    } else {
        hex_digits(bytes).push(0x0au8)
    }
}

/// What converting the MessagePack bytes `data` to JSON does. On success
/// one line feed follows the JSON. On failure what was written before the
/// failure stays.
pub open spec fn msgpack_to_json_outcome(data: Seq<u8>, pretty: bool) -> Outcome {
    let run = if pretty {
        pretty_json_from_msgpack(data)
    } else {
        json_from_msgpack(data)
    };
    match run.1 {
        None => Outcome { written: run.0.push(0x0au8), failure: None },
        Some(cause) => Outcome {
            written: run.0,
            failure: Some(binary_to_text_failure_of(msgpack_reads(data), cause)),
        },
    }
}

/// What [`mp_to_json`] does on `input`. With `use_hex` the input is
/// hexadecimal text and is decoded first; where that fails nothing is
/// written.
pub open spec fn mp_to_json_outcome(input: Seq<u8>, use_hex: bool, pretty: bool) -> Outcome {
    if use_hex {
        match decoded(input) {
            Err(e) => Outcome { written: Seq::empty(), failure: Some(ErrorView::Hex(e)) },
            Ok(data) => msgpack_to_json_outcome(data, pretty),
        }
    } else {
        msgpack_to_json_outcome(input, pretty)
    }
}

/// What [`json_to_mp`] does on `input`. Without `use_hex` the MessagePack
/// bytes are written as they come, and stay where the conversion fails.
/// With `use_hex` they are held back until the conversion is done and
/// then written as hexadecimal text; where it fails nothing is written.
pub open spec fn json_to_mp_outcome(input: Seq<u8>, use_hex: bool, pretty: bool) -> Outcome {
    let run = msgpack_from_json(input);
    match run.1 {
        None => Outcome {
            written: if use_hex {
                hex_frame(run.0, pretty)
            } else {
                run.0
            },
            failure: None,
        },
        Some(cause) => Outcome {
            written: if use_hex {
                Seq::empty()
            } else {
                run.0
            },
            failure: Some(text_to_binary_failure_of(json_reads(input), cause)),
        },
    }
}

/// Calls `serde_transcode::transcode` from an `rmp_serde::Deserializer`
/// over `data` to a `serde_json::Serializer` that writes on one line to
/// the end of `out`. The contract gives a name to what was written and to
/// the text of the error, and states nothing of either.
#[verifier::external_body]
fn transcode_msgpack_to_json(data: &[u8], out: &mut Vec<u8>) -> (r: Result<(), String>)
    ensures
        final(out)@ == old(out)@ + json_from_msgpack(data@).0,
        match r {
            Ok(()) => json_from_msgpack(data@).1 is None,
            Err(cause) => json_from_msgpack(data@).1 == Some(cause@),
        },
{
    let mut source = ::rmp_serde::Deserializer::new(data);
    let mut sink = ::serde_json::Serializer::new(out);
    match ::serde_transcode::transcode(&mut source, &mut sink) {
        Ok(()) => Ok(()),
        Err(e) => Err(e.to_string()),
    }
}

/// Calls `serde_transcode::transcode` from an `rmp_serde::Deserializer`
/// over `data` to a `serde_json::Serializer` that writes with indentation
/// to the end of `out`. The contract gives a name to what was written and
/// to the text of the error, and states nothing of either.
#[verifier::external_body]
fn transcode_msgpack_to_pretty_json(data: &[u8], out: &mut Vec<u8>) -> (r: Result<(), String>)
    ensures
        final(out)@ == old(out)@ + pretty_json_from_msgpack(data@).0,
        match r {
            Ok(()) => pretty_json_from_msgpack(data@).1 is None,
            Err(cause) => pretty_json_from_msgpack(data@).1 == Some(cause@),
        },
{
    let mut source = ::rmp_serde::Deserializer::new(data);
    let mut sink = ::serde_json::Serializer::pretty(out);
    match ::serde_transcode::transcode(&mut source, &mut sink) {
        Ok(()) => Ok(()),
        Err(e) => Err(e.to_string()),
    }
}

/// Calls `serde_transcode::transcode` from a `serde_json::Deserializer`
/// that reads `text` to an `rmp_serde::Serializer` that writes to the end
/// of `out`. The contract gives a name to what was written and to the text
/// of the error, and states nothing of either.
#[verifier::external_body]
fn transcode_json_to_msgpack(text: &[u8], out: &mut Vec<u8>) -> (r: Result<(), String>)
    ensures
        final(out)@ == old(out)@ + msgpack_from_json(text@).0,
        match r {
            Ok(()) => msgpack_from_json(text@).1 is None,
            Err(cause) => msgpack_from_json(text@).1 == Some(cause@),
        },
{
    let mut source = ::serde_json::Deserializer::from_reader(text);
    let mut sink = ::rmp_serde::Serializer::new(out);
    match ::serde_transcode::transcode(&mut source, &mut sink) {
        Ok(()) => Ok(()),
        Err(e) => Err(e.to_string()),
    }
}

/// Calls `serde_transcode::transcode` from an `rmp_serde::Deserializer`
/// over `data` to an `rmp_serde::Serializer` whose output is thrown away.
/// The contract gives a name to whether the call succeeded.
#[verifier::external_body]
fn msgpack_source_reads(data: &[u8]) -> (ok: bool)
    ensures
        ok == msgpack_reads(data@),
{
    let mut source = ::rmp_serde::Deserializer::new(data);
    let mut sink = ::rmp_serde::Serializer::new(std::io::sink());
    ::serde_transcode::transcode(&mut source, &mut sink).is_ok()
}

/// Calls `serde_transcode::transcode` from a `serde_json::Deserializer`
/// that reads `text` to a `serde_json::Serializer` whose output is thrown
/// away. The contract gives a name to whether the call succeeded.
#[verifier::external_body]
fn json_source_reads(text: &[u8]) -> (ok: bool)
    ensures
        ok == json_reads(text@),
{
    let mut source = ::serde_json::Deserializer::from_reader(text);
    let mut sink = ::serde_json::Serializer::new(std::io::sink());
    ::serde_transcode::transcode(&mut source, &mut sink).is_ok()
}

/// Names the side that a failed conversion from MessagePack to JSON is
/// charged to: MessagePack where the source does not read, else JSON.
pub fn binary_to_text_failure(source_reads: bool, cause: String) -> (e: Error)
    ensures
        e@ == binary_to_text_failure_of(source_reads, cause@),
{
    if source_reads {
        Error::Json(cause)
    } else {
        Error::MessagePak(cause)
    }
}

/// Names the side that a failed conversion from JSON to MessagePack is
/// charged to: JSON where the source does not read, else MessagePack.
pub fn text_to_binary_failure(source_reads: bool, cause: String) -> (e: Error)
    ensures
        e@ == text_to_binary_failure_of(source_reads, cause@),
{
    if source_reads {
        Error::MessagePak(cause)
    } else {
        Error::Json(cause)
    }
}

/// Writes `bytes` to `output` as hexadecimal text, in groups where
/// `pretty` is set, and one line feed after it.
pub fn write_hex_frame(output: &mut Vec<u8>, bytes: &[u8], pretty: bool) -> (r: Result<(), Error>)
    ensures
        r is Ok,
        final(output)@ == old(output)@ + hex_frame(bytes@, pretty),
{
    let text = encode(bytes);
    proof {
        lemma_hex_text_bytes(bytes@);
    }
    if pretty {
        let _ = write_pretty_hex(output, text.as_str());
    } else {
        let digits = text.as_str().as_bytes();
        output.extend_from_slice(digits);
    }
    output.push(0x0a);
    Ok(())
}

fn convert_msgpack(data: &[u8], output: &mut Vec<u8>, pretty: bool) -> (r: Result<(), Error>)
    ensures
        final(output)@ == old(output)@ + msgpack_to_json_outcome(data@, pretty).written,
        match r {
            Ok(()) => msgpack_to_json_outcome(data@, pretty).failure is None,
            Err(e) => msgpack_to_json_outcome(data@, pretty).failure == Some(e@),
        },
{
    let run = if pretty {
        transcode_msgpack_to_pretty_json(data, output)
    } else {
        transcode_msgpack_to_json(data, output)
    };
    match run {
        Ok(()) => {
            output.push(0x0a);
            Ok(())
        },
        Err(cause) => {
            let source_reads = msgpack_source_reads(data);
            Err(binary_to_text_failure(source_reads, cause))
        },
    }
}

/// Converts MessagePack to JSON. `input` holds the MessagePack bytes, or
/// with `use_hex` their hexadecimal text, in which white space is passed
/// over. The JSON is written to the end of `output`, indented where
/// `pretty` is set, and one line feed after it.
///
/// Malformed hexadecimal text fails with `Hex` before anything is
/// written. A failed conversion fails with `MessagePak` or `Json`, and
/// what it had written stays in `output`.
pub fn mp_to_json(input: &[u8], output: &mut Vec<u8>, use_hex: bool, pretty: bool) -> (r: Result<
    (),
    Error,
>)
    ensures
        final(output)@ == old(output)@ + mp_to_json_outcome(input@, use_hex, pretty).written,
        match r {
            Ok(()) => mp_to_json_outcome(input@, use_hex, pretty).failure is None,
            Err(e) => mp_to_json_outcome(input@, use_hex, pretty).failure == Some(e@),
        },
{
    if use_hex {
        match decode(input) {
            Err(e) => Err(Error::Hex(e)),
            Ok(data) => convert_msgpack(data.as_slice(), output, pretty),
        }
    } else {
        convert_msgpack(input, output, pretty)
    }
}

/// Converts JSON to MessagePack. `input` holds the JSON. Without `use_hex`
/// the MessagePack bytes are written to the end of `output` as they come,
/// and nothing after them. With `use_hex` they are written as hexadecimal
/// text once the conversion is done, in groups where `pretty` is set, and
/// one line feed after it.
///
/// A failed conversion fails with `Json` or `MessagePak`. What it had
/// written stays in `output`; with `use_hex` that is nothing.
pub fn json_to_mp(input: &[u8], output: &mut Vec<u8>, use_hex: bool, pretty: bool) -> (r: Result<
    (),
    Error,
>)
    ensures
        final(output)@ == old(output)@ + json_to_mp_outcome(input@, use_hex, pretty).written,
        match r {
            Ok(()) => json_to_mp_outcome(input@, use_hex, pretty).failure is None,
            Err(e) => json_to_mp_outcome(input@, use_hex, pretty).failure == Some(e@),
        },
{
    if use_hex {
        let mut buffer: Vec<u8> = Vec::new();
        match transcode_json_to_msgpack(input, &mut buffer) {
            Ok(()) => write_hex_frame(output, buffer.as_slice(), pretty),
            Err(cause) => {
                let source_reads = json_source_reads(input);
                Err(text_to_binary_failure(source_reads, cause))
            },
        }
    } else {
        match transcode_json_to_msgpack(input, output) {
            Ok(()) => Ok(()),
            Err(cause) => {
                let source_reads = json_source_reads(input);
                Err(text_to_binary_failure(source_reads, cause))
            },
        }
    }
}

/// Hexadecimal text as it is written out, grouped or not, decodes to the
/// bytes that it was written from.
pub proof fn lemma_hex_frame_decodes(bytes: Seq<u8>, pretty: bool)
    ensures
        decoded(hex_frame(bytes, pretty)) == Ok::<Seq<u8>, HexError>(bytes),
{
    lemma_grouped_text_decodes(bytes);
}

/// The hexadecimal text that a conversion to MessagePack writes stands
/// for the bytes that it writes without `use_hex`: converted back with
/// `use_hex`, it does what those bytes do without.
pub proof fn lemma_hex_output_reads_as_raw_output(
    input: Seq<u8>,
    pretty: bool,
    pretty_back: bool,
)
    requires
        json_to_mp_outcome(input, true, pretty).failure is None,
    ensures
        json_to_mp_outcome(input, false, pretty).failure is None,
        mp_to_json_outcome(json_to_mp_outcome(input, true, pretty).written, true, pretty_back)
            == mp_to_json_outcome(
            json_to_mp_outcome(input, false, pretty).written,
            false,
            pretty_back,
        ),
{
    lemma_hex_frame_decodes(msgpack_from_json(input).0, pretty);
}

} // verus!
