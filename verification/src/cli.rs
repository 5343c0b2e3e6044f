//! The arguments of a run and the rules that settle its direction.

use vstd::prelude::*;
use crate::error::Error;
use crate::error::ErrorView;
use crate::ftype::kind_of_optional_name;
use crate::ftype::FType;

verus! {

/// The arguments of one run.
#[derive(Debug, PartialEq, Eq)]
pub struct Args {
    /// The file to read. Without it, and without `input`, the standard input is read.
    pub input_file: Option<String>,
    /// The file to write. Without it the standard output is written.
    pub output_file: Option<String>,
    /// The input itself, as text. It cannot be given together with `input_file`.
    pub input: Option<String>,
    /// Convert from MessagePack to JSON. It cannot be given together with `to_msgpack`.
    pub to_json: bool,
    /// Convert from JSON to MessagePack. It cannot be given together with `to_json`.
    pub to_msgpack: bool,
    /// The MessagePack side is hexadecimal text instead of raw bytes.
    pub hex: bool,
    /// Indent the JSON that is written, and group the hexadecimal text.
    pub pretty: bool,
    /// Report what is being done.
    pub verbose: bool,
}

/// The mathematical value of [`Args`].
pub struct ArgsView {
    pub input_file: Option<Seq<char>>,
    pub output_file: Option<Seq<char>>,
    pub input: Option<Seq<char>>,
    pub to_json: bool,
    pub to_msgpack: bool,
    pub hex: bool,
    pub pretty: bool,
    pub verbose: bool,
}

/// The view of an optional string.
pub open spec fn optional_text(text: Option<String>) -> Option<Seq<char>> {
    match text {
        Some(t) => Some(t@),
        None => None,
    }
}

impl View for Args {
    type V = ArgsView;

    open spec fn view(&self) -> ArgsView {
        ArgsView {
            input_file: optional_text(self.input_file),
            output_file: optional_text(self.output_file),
            input: optional_text(self.input),
            to_json: self.to_json,
            to_msgpack: self.to_msgpack,
            hex: self.hex,
            pretty: self.pretty,
            verbose: self.verbose,
        }
    }
}

fn clone_optional_text(text: &Option<String>) -> (copy: Option<String>)
    ensures
        optional_text(copy) == optional_text(*text),
{
    match text {
        Some(t) => Some(t.clone()),
        None => None,
    }
}

impl Clone for Args {
    fn clone(&self) -> (copy: Self)
        ensures
            copy@ == self@,
    {
        Args {
            input_file: clone_optional_text(&self.input_file),
            output_file: clone_optional_text(&self.output_file),
            input: clone_optional_text(&self.input),
            to_json: self.to_json,
            to_msgpack: self.to_msgpack,
            hex: self.hex,
            pretty: self.pretty,
            verbose: self.verbose,
        }
    }
}

/// The direction of a conversion.
#[derive(Debug, Clone, Copy, PartialEq, Eq, Structural)]
pub enum Direction {
    /// From MessagePack to JSON.
    BinaryToText,
    /// From JSON to MessagePack.
    TextToBinary,
}

/// The direction that the kinds of the input and output files suggest.
/// A JSON input or a MessagePack output asks for MessagePack and is looked
/// at first; a MessagePack input or a JSON output asks for JSON.
pub open spec fn inferred_direction(input: FType, output: FType) -> Option<Direction> {
    if input == FType::Json || output == FType::MessagePack {
        Some(Direction::TextToBinary)
    } else if input == FType::MessagePack || output == FType::Json {
        Some(Direction::BinaryToText)
    } else {
        None
    }
}

/// The failure that names both direction flags.
pub open spec fn flag_conflict() -> ErrorView {
    ErrorView::ArgConflict("--to-json"@, "--to-msgpack"@)
}

/// The failure that names both ways of giving the input.
pub open spec fn input_conflict() -> ErrorView {
    ErrorView::ArgConflict("INPUT_FILE"@, "--text"@)
}

/// The direction of a run, from its two flags and its two file names
/// alone. Both flags together are a conflict. One flag settles the
/// direction. Without a flag the names' endings do, and where they tell
/// nothing the direction is unknown.
pub open spec fn resolved_direction(
    to_json: bool,
    to_msgpack: bool,
    input_file: Option<Seq<char>>,
    output_file: Option<Seq<char>>,
) -> Result<Direction, ErrorView> {
    if to_json && to_msgpack {
        Err(flag_conflict())
    } else if to_json {
        Ok(Direction::BinaryToText)
    } else if to_msgpack {
        Ok(Direction::TextToBinary)
    } else {
        match inferred_direction(
            kind_of_optional_name(input_file),
            kind_of_optional_name(output_file),
        ) {
            Some(d) => Ok(d),
            None => Err(ErrorView::NoDirection),
        }
    }
}

impl ArgsView {
    /// The direction of the run, or why it has none.
    pub open spec fn direction(self) -> Result<Direction, ErrorView> {
        resolved_direction(self.to_json, self.to_msgpack, self.input_file, self.output_file)
    }

    /// The outcome of checking the arguments: the arguments with the flag
    /// of their direction set, or the failure. Two inputs are refused
    /// before the direction is looked at.
    pub open spec fn validated(self) -> Result<ArgsView, ErrorView> {
        if self.input_file is Some && self.input is Some {
            Err(input_conflict())
        } else {
            match self.direction() {
                Err(e) => Err(e),
                Ok(Direction::BinaryToText) => Ok(ArgsView { to_json: true, ..self }),
                Ok(Direction::TextToBinary) => Ok(ArgsView { to_msgpack: true, ..self }),
            }
        }
    }

    /// The arguments have passed the check: exactly one direction flag is
    /// set and at most one input is given.
    pub open spec fn is_settled(self) -> bool {
        &&& self.to_json != self.to_msgpack
        &&& !(self.input_file is Some && self.input is Some)
    }
}

/// Where the input of a run comes from.
#[derive(Debug, PartialEq, Eq)]
pub enum InputSource {
    /// The named file.
    File(String),
    /// The text itself.
    Text(String),
    /// The standard input.
    Stdin,
}

/// Where the output of a run goes.
#[derive(Debug, PartialEq, Eq)]
pub enum OutputSink {
    /// The named file.
    File(String),
    /// The standard output.
    Stdout,
}

/// Tells the direction that the kinds of the input and output files suggest.
pub fn infer_direction(input: FType, output: FType) -> (d: Option<Direction>)
    ensures
        d == inferred_direction(input, output),
{
    if input == FType::Json || output == FType::MessagePack {
        Some(Direction::TextToBinary)
    } else if input == FType::MessagePack || output == FType::Json {
        Some(Direction::BinaryToText)
    } else {
        None
    }
}

fn kind_of(name: &Option<String>) -> (kind: FType)
    ensures
        kind == kind_of_optional_name(optional_text(*name)),
{
    match name {
        Some(n) => FType::from_fname(n.as_str()),
        None => FType::Unknown,
    }
}

/// Settles the direction of a run from its two flags and its two file
/// names. It fails with `ArgConflict` where both flags are set and with
/// `NoDirection` where no flag is set and the names tell nothing.
pub fn resolve_direction(
    to_json: bool,
    to_msgpack: bool,
    input_file: &Option<String>,
    output_file: &Option<String>,
) -> (r: Result<Direction, Error>)
    ensures
        match r {
            Ok(d) => resolved_direction(
                to_json,
                to_msgpack,
                optional_text(*input_file),
                optional_text(*output_file),
            ) == Ok::<Direction, ErrorView>(d),
            Err(e) => resolved_direction(
                to_json,
                to_msgpack,
                optional_text(*input_file),
                optional_text(*output_file),
            ) == Err::<Direction, ErrorView>(e@),
        },
{
    if to_json && to_msgpack {
        return Err(
            Error::ArgConflict(String::from_str("--to-json"), String::from_str("--to-msgpack")),
        );
    }
    if to_json {
        return Ok(Direction::BinaryToText);
    }
    if to_msgpack {
        return Ok(Direction::TextToBinary);
    }
    match infer_direction(kind_of(input_file), kind_of(output_file)) {
        Some(d) => Ok(d),
        None => Err(Error::NoDirection),
    }
}

impl Args {
    /// Checks that no two arguments exclude each other, and sets `to_json`
    /// or `to_msgpack` from the file names where neither is set. On a
    /// failure the arguments stay as they were.
    pub fn validate_update(&mut self) -> (r: Result<(), Error>)
        ensures
            match r {
                Ok(()) => old(self)@.validated() == Ok::<ArgsView, ErrorView>(final(self)@),
                Err(e) => old(self)@.validated() == Err::<ArgsView, ErrorView>(e@) && final(self)@
                    == old(self)@,
            },
            r is Ok ==> final(self)@.is_settled(),
    {
        if self.input_file.is_some() && self.input.is_some() {
            return Err(
                Error::ArgConflict(String::from_str("INPUT_FILE"), String::from_str("--text")),
            );
        }
        match resolve_direction(self.to_json, self.to_msgpack, &self.input_file, &self.output_file) {
            Err(e) => Err(e),
            Ok(Direction::BinaryToText) => {
                self.to_json = true;
                Ok(())
            },
            Ok(Direction::TextToBinary) => {
                self.to_msgpack = true;
                Ok(())
            },
        }
    }

    /// Tells where the input comes from: the named file, else the text
    /// given with the arguments, else the standard input.
    pub fn get_input(&self) -> (source: InputSource)
        ensures
            match source {
                InputSource::File(name) => self@.input_file == Some(name@),
                InputSource::Text(text) => self@.input_file is None && self@.input == Some(text@),
                InputSource::Stdin => self@.input_file is None && self@.input is None,
            },
    {
        match &self.input_file {
            Some(name) => InputSource::File(name.clone()),
            None => match &self.input {
                Some(text) => InputSource::Text(text.clone()),
                None => InputSource::Stdin,
            },
        }
    }

    /// Tells where the output goes: the named file, else the standard output.
    pub fn get_output(&self) -> (sink: OutputSink)
        ensures
            match sink {
                OutputSink::File(name) => self@.output_file == Some(name@),
                OutputSink::Stdout => self@.output_file is None,
            },
    {
        match &self.output_file {
            Some(name) => OutputSink::File(name.clone()),
            None => OutputSink::Stdout,
        }
    }
}

/// The direction of a run depends on its two flags and its two file names
/// and on nothing else: two sets of arguments that agree on these have the
/// same direction or fail in the same way.
pub proof fn lemma_direction_is_determined(a: ArgsView, b: ArgsView)
    requires
        a.to_json == b.to_json,
        a.to_msgpack == b.to_msgpack,
        a.input_file == b.input_file,
        a.output_file == b.output_file,
    ensures
        a.direction() == b.direction(),
{
}

/// Arguments that have passed the check pass it again unchanged.
pub proof fn lemma_validated_is_stable(a: ArgsView)
    requires
        a.validated() is Ok,
    ensures
        a.validated()->Ok_0.validated() == a.validated(),
        a.validated()->Ok_0.is_settled(),
{
}

} // verus!
