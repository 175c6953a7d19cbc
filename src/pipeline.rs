//! The decode/encode pipeline, as a machine that a host advances one step at
//! a time so that it can deliver each progress message as it comes.
use vstd::prelude::*;
use vstd::string::StrSliceExecFns;
use vstd::utf8::is_ascii_chars;
use crate::codec::{
    compression_type, decode, decode_failure, default_outcome, encode_default, encode_jpeg,
    encode_png, filter_type, image_format, image_format_of, jpeg_outcome, outcome, png_outcome,
    Decoded,
};
use crate::format::{ascii_lower, lower_of, Format, IdentifierTable};
use crate::tuning::{EncoderInput, EncoderOptions};

verus! {

pub open spec fn loading_message() -> Seq<char> {
    "Loading image..."@
}

pub open spec fn converting_message() -> Seq<char> {
    "Converting to new format..."@
}

pub open spec fn completed_message() -> Seq<char> {
    "Completed conversion."@
}

pub open spec fn codec_error_prefix() -> Seq<char> {
    "Image processing error: "@
}

pub open spec fn input_error_prefix() -> Seq<char> {
    "Unsupported input format: "@
}

pub open spec fn output_error_prefix() -> Seq<char> {
    "Unsupported output format: "@
}

/// The message that reports a codec failure with this description.
pub fn map_image_err(description: String) -> (r: String)
    ensures
        r@ == codec_error_prefix() + description@,
{
    String::from_str("Image processing error: ").concat(description.as_str())
}

/// Where a conversion stands.
#[derive(Clone, Copy, Debug, PartialEq, Eq, Structural)]
pub enum Stage {
    /// Nothing done yet.
    Pending,
    /// The start of decoding was announced.
    Loading,
    /// The image is decoded and the start of encoding was announced.
    Converting,
    /// The output is encoded and completion was announced.
    Completing,
    /// The result was handed out.
    Finished,
}

/// What the host is to do after a step.
pub enum Action {
    /// Deliver this progress message, then step again.
    Report(String),
    /// The conversion is over with this result.
    Finish(Result<Vec<u8>, String>),
}

pub open spec fn reports(a: Action, msg: Seq<char>) -> bool {
    match a {
        Action::Report(m) => m@ == msg,
        _ => false,
    }
}

/// Whether a step ends the conversion with this outcome.
pub open spec fn finishes_with(a: Action, o: Result<Seq<u8>, Seq<char>>) -> bool {
    match a {
        Action::Finish(r) => outcome(r) == o,
        _ => false,
    }
}

/// What the encode phase gives for the image decoded from `source` as
/// `input`: the JPEG or PNG encoder with exactly the chosen settings, or the
/// output format's default encoder.
pub open spec fn encode_outcome(
    source: Seq<u8>,
    input: Format,
    output: Format,
    options: EncoderOptions,
) -> Result<Seq<u8>, Seq<char>> {
    match options {
        EncoderOptions::Jpeg { quality } => jpeg_outcome(source, input, quality),
        EncoderOptions::Png { compression, filter } => png_outcome(source, input, compression, filter),
        EncoderOptions::DefaultEncoding => default_outcome(source, input, output),
    }
}

/// The result of a whole conversion: the encoded bytes, or the first codec
/// failure with its description behind the error prefix.
pub open spec fn conversion_outcome(
    source: Seq<u8>,
    input: Format,
    output: Format,
    options: EncoderOptions,
) -> Result<Seq<u8>, Seq<char>> {
    match decode_failure(source, input) {
        Some(d) => Err(codec_error_prefix() + d),
        None => match encode_outcome(source, input, output, options) {
            Ok(b) => Ok(b),
            Err(d) => Err(codec_error_prefix() + d),
        },
    }
}

/// The progress messages of a whole conversion: those of the phases entered.
pub open spec fn conversion_messages(
    source: Seq<u8>,
    input: Format,
    output: Format,
    options: EncoderOptions,
) -> Seq<Seq<char>> {
    if decode_failure(source, input) is Some {
        seq![loading_message()]
    } else if encode_outcome(source, input, output, options) is Err {
        seq![loading_message(), converting_message()]
    } else {
        seq![loading_message(), converting_message(), completed_message()]
    }
}

/// Steps left before a conversion in this stage is over.
pub open spec fn steps_left(s: Stage) -> nat {
    match s {
        Stage::Pending => 4,
        Stage::Loading => 3,
        Stage::Converting => 2,
        Stage::Completing => 1,
        Stage::Finished => 0,
    }
}

pub open spec fn texts(s: Seq<String>) -> Seq<Seq<char>> {
    s.map_values(|m: String| m@)
}

/// The messages a conversion has announced on reaching a stage.
pub open spec fn announced(s: Stage) -> Seq<Seq<char>> {
    match s {
        Stage::Pending => seq![],
        Stage::Loading => seq![loading_message()],
        Stage::Converting => seq![loading_message(), converting_message()],
        _ => seq![loading_message(), converting_message(), completed_message()],
    }
}

/// One conversion of one image: one decode, then one encode.
pub struct Conversion {
    stage: Stage,
    data: Vec<u8>,
    input: Format,
    output: Format,
    options: EncoderOptions,
    image: Option<Decoded>,
    encoded: Vec<u8>,
}

/// Encodes a decoded image as the options say: the JPEG or PNG encoder with
/// exactly those settings, or the target format's default encoder.
fn encode(img: &Decoded, input: Format, output: Format, options: EncoderOptions) -> (r: Result<Vec<u8>, String>)
    requires
        img.format() == image_format_of(input),
    ensures
        match encode_outcome(img.source(), input, output, options) {
            Ok(b) => r matches Ok(x) && x@ == b,
            Err(d) => r matches Err(m) && m@ == codec_error_prefix() + d,
        },
{
    let done = match options {
        EncoderOptions::Jpeg { quality } => encode_jpeg(img, quality),
        EncoderOptions::Png { compression, filter } => encode_png(
            img,
            compression_type(compression),
            filter_type(filter),
        ),
        EncoderOptions::DefaultEncoding => encode_default(img, image_format(output)),
    };
    match done {
        Ok(bytes) => Ok(bytes),
        Err(m) => Err(map_image_err(m)),
    }
}

/// Whether `r` is what `Conversion::start` gives when the identifiers'
/// lower-case forms are `input_key` and `output_key`.
pub open spec fn started(
    table: IdentifierTable,
    input_key: Seq<char>,
    output_key: Seq<char>,
    input: Seq<char>,
    output: Seq<char>,
    data: Seq<u8>,
    tuning: EncoderInput,
    r: Result<Conversion, String>,
) -> bool {
    match (table.lookup(input_key), table.lookup(output_key)) {
        (None, _) => r matches Err(m) && m@ == input_error_prefix() + input,
        (Some(_), None) => r matches Err(m) && m@ == output_error_prefix() + output,
        (Some(i), Some(o)) => r matches Ok(c) && c.wf() && c.stage() == Stage::Pending
            && c.data() == data && c.input_format() == i && c.output_format() == o
            && c.options() == tuning.options_for(o),
    }
}

impl Conversion {
    pub closed spec fn stage(&self) -> Stage {
        self.stage
    }

    pub closed spec fn data(&self) -> Seq<u8> {
        self.data@
    }

    pub closed spec fn input_format(&self) -> Format {
        self.input
    }

    pub closed spec fn output_format(&self) -> Format {
        self.output
    }

    pub closed spec fn options(&self) -> EncoderOptions {
        self.options
    }

    /// The result this conversion ends with.
    pub open spec fn outcome(&self) -> Result<Seq<u8>, Seq<char>> {
        conversion_outcome(self.data(), self.input_format(), self.output_format(), self.options())
    }

    /// The progress messages this conversion announces from its start.
    pub open spec fn messages(&self) -> Seq<Seq<char>> {
        conversion_messages(self.data(), self.input_format(), self.output_format(), self.options())
    }

    /// What each stage has established: past decoding, the image of the
    /// conversion's own bytes; past encoding, the encoder's own output.
    pub closed spec fn wf(&self) -> bool {
        &&& (self.stage == Stage::Converting ==> (self.image matches Some(d) && d.source()
            == self.data@ && d.format() == image_format_of(self.input)))
        &&& (self.stage == Stage::Converting || self.stage == Stage::Completing
            ==> decode_failure(self.data@, self.input) is None)
        &&& (self.stage == Stage::Completing ==> encode_outcome(
            self.data@,
            self.input,
            self.output,
            self.options,
        ) == Ok::<Seq<u8>, Seq<char>>(self.encoded@))
    }

    /// Resolves the caller's identifiers in `table` and the tuning for the
    /// target format. An identifier that the table does not know is refused
    /// with a message that quotes it as given, the input side first.
    pub fn start(
        table: IdentifierTable,
        data: Vec<u8>,
        input: &str,
        output: &str,
        tuning: &EncoderInput,
    ) -> (r: Result<Self, String>)
        ensures
            started(table, lower_of(input@), lower_of(output@), input@, output@, data@, *tuning, r),
            is_ascii_chars(input@) && is_ascii_chars(output@) ==> started(
                table,
                ascii_lower(input@),
                ascii_lower(output@),
                input@,
                output@,
                data@,
                *tuning,
                r,
            ),
    {
        let i = match table.resolve(input) {
            Some(f) => f,
            None => {
                return Err(String::from_str("Unsupported input format: ").concat(input));
            },
        };
        let o = match table.resolve(output) {
            Some(f) => f,
            None => {
                return Err(String::from_str("Unsupported output format: ").concat(output));
            },
        };
        let options = tuning.to_options(o);
        Ok(Conversion::new(data, i, o, options))
    }

    /// A conversion of `data` from `input` to `output` with these options,
    /// with nothing done yet.
    pub fn new(data: Vec<u8>, input: Format, output: Format, options: EncoderOptions) -> (r: Self)
        ensures
            r.wf(),
            r.stage() == Stage::Pending,
            r.data() == data@,
            r.input_format() == input,
            r.output_format() == output,
            r.options() == options,
    {
        Conversion {
            stage: Stage::Pending,
            data,
            input,
            output,
            options,
            image: None,
            encoded: Vec::new(),
        }
    }

    /// Advances the conversion by one phase: announce decoding; decode once,
    /// as the input format, and announce encoding; encode once and announce
    /// completion; hand out the bytes. A codec failure ends the conversion at
    /// once with its description behind the error prefix.
    pub fn step(&mut self) -> (a: Action)
        requires
            old(self).wf(),
            old(self).stage() != Stage::Finished,
        ensures
            final(self).wf(),
            final(self).data() == old(self).data(),
            final(self).input_format() == old(self).input_format(),
            final(self).output_format() == old(self).output_format(),
            final(self).options() == old(self).options(),
            steps_left(final(self).stage()) < steps_left(old(self).stage()),
            final(self).stage() == Stage::Finished ==> finishes_with(a, old(self).outcome()),
            old(self).stage() == Stage::Pending ==> final(self).stage() == Stage::Loading
                && reports(a, loading_message()),
            old(self).stage() == Stage::Loading ==> if decode_failure(
                old(self).data(),
                old(self).input_format(),
            ) is None {
                final(self).stage() == Stage::Converting && reports(a, converting_message())
            } else {
                final(self).stage() == Stage::Finished
            },
            old(self).stage() == Stage::Converting ==> if encode_outcome(
                old(self).data(),
                old(self).input_format(),
                old(self).output_format(),
                old(self).options(),
            ) is Ok {
                final(self).stage() == Stage::Completing && reports(a, completed_message())
            } else {
                final(self).stage() == Stage::Finished
            },
            old(self).stage() == Stage::Completing ==> final(self).stage() == Stage::Finished,
    {
        match self.stage {
            Stage::Pending => {
                self.stage = Stage::Loading;
                Action::Report(String::from_str("Loading image..."))
            },
            Stage::Loading => {
                match decode(self.data.as_slice(), image_format(self.input)) {
                    Ok(img) => {
                        self.image = Some(img);
                        self.stage = Stage::Converting;
                        Action::Report(String::from_str("Converting to new format..."))
                    },
                    Err(m) => {
                        self.stage = Stage::Finished;
                        Action::Finish(Err(map_image_err(m)))
                    },
                }
            },
            Stage::Converting => {
                let done = match &self.image {
                    Some(img) => encode(img, self.input, self.output, self.options),
                    None => Err(String::new()),
                };
                self.image = None;
                match done {
                    Ok(bytes) => {
                        self.encoded = bytes;
                        self.stage = Stage::Completing;
                        Action::Report(String::from_str("Completed conversion."))
                    },
                    Err(m) => {
                        self.stage = Stage::Finished;
                        Action::Finish(Err(m))
                    },
                }
            },
            _ => {
                self.stage = Stage::Finished;
                let mut out: Vec<u8> = Vec::new();
                std::mem::swap(&mut out, &mut self.encoded);
                Action::Finish(Ok(out))
            },
        }
    }

    /// Runs a conversion from its start to its end, appending each progress
    /// message to `progress` as it is announced.
    pub fn run(&mut self, progress: &mut Vec<String>) -> (r: Result<Vec<u8>, String>)
        requires
            old(self).wf(),
            old(self).stage() == Stage::Pending,
        ensures
            final(self).stage() == Stage::Finished,
            outcome(r) == old(self).outcome(),
            texts(final(progress)@) == texts(old(progress)@) + old(self).messages(),
    {
        let ghost before = texts(progress@);
        let ghost start = *self;
        loop
            invariant
                self.wf(),
                self.stage() != Stage::Finished,
                self.data() == start.data(),
                self.input_format() == start.input_format(),
                self.output_format() == start.output_format(),
                self.options() == start.options(),
                start == *old(self),
                before == texts(old(progress)@),
                texts(progress@) == before + announced(self.stage()),
            decreases steps_left(self.stage()),
        {
            let ghost prior = texts(progress@);
            let ghost stage = self.stage();
            match self.step() {
                Action::Report(m) => {
                    progress.push(m);
                    assert(texts(progress@) =~= prior.push(m@));
                },
                Action::Finish(r) => {
                    assert(announced(stage) =~= start.messages());
                    return r;
                },
            }
        }
    }
}

/// Converts `data` from `input` to `output` with these options, appending
/// the progress messages to `progress`: one decode as `input`, then at most
/// one encode, each phase announced as it is entered.
pub fn convert(
    data: Vec<u8>,
    input: Format,
    output: Format,
    options: EncoderOptions,
    progress: &mut Vec<String>,
) -> (r: Result<Vec<u8>, String>)
    ensures
        outcome(r) == conversion_outcome(data@, input, output, options),
        texts(final(progress)@) == texts(old(progress)@) + conversion_messages(
            data@,
            input,
            output,
            options,
        ),
{
    let mut c = Conversion::new(data, input, output, options);
    c.run(progress)
}

} // verus!
