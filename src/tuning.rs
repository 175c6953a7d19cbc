//! Caller tuning knobs and their resolution into a concrete encoder setting.
use vstd::prelude::*;
use crate::format::{same_text, Format};

verus! {

/// Optional encoder parameters as a caller supplies them; an unset field
/// carries no information.
pub struct EncoderInput {
    /// JPEG quality, 0 to 100.
    pub quality: Option<u8>,
    /// PNG compression keyword: `fast`, `best` or `default`.
    pub compression: Option<String>,
    /// PNG filter keyword: `no_filter`, `sub`, `up`, `avg`, `paeth` or `adaptive`.
    pub filter: Option<String>,
}

/// PNG compression level.
#[derive(Clone, Copy, Debug, PartialEq, Eq, Structural)]
pub enum Compression {
    Fast,
    Best,
    Default,
}

/// PNG row filter.
#[derive(Clone, Copy, Debug, PartialEq, Eq, Structural)]
pub enum Filter {
    NoFilter,
    Sub,
    Up,
    Avg,
    Paeth,
    Adaptive,
}

/// The encoder configuration actually used for one conversion.
#[derive(Clone, Copy, Debug, PartialEq, Eq, Structural)]
pub enum EncoderOptions {
    /// The JPEG encoder at this quality.
    Jpeg { quality: u8 },
    /// The PNG encoder with both of these settings.
    Png { compression: Compression, filter: Filter },
    /// The target format's encoder with its own defaults.
    DefaultEncoding,
}

pub open spec fn text_view(s: Option<String>) -> Option<Seq<char>> {
    match s {
        Some(t) => Some(t@),
        None => None,
    }
}

pub open spec fn compression_of(s: Seq<char>) -> Option<Compression> {
    if s == "fast"@ {
        Some(Compression::Fast)
    } else if s == "best"@ {
        Some(Compression::Best)
    } else if s == "default"@ {
        Some(Compression::Default)
    } else {
        None
    }
}

pub open spec fn filter_of(s: Seq<char>) -> Option<Filter> {
    if s == "no_filter"@ {
        Some(Filter::NoFilter)
    } else if s == "sub"@ {
        Some(Filter::Sub)
    } else if s == "up"@ {
        Some(Filter::Up)
    } else if s == "avg"@ {
        Some(Filter::Avg)
    } else if s == "paeth"@ {
        Some(Filter::Paeth)
    } else if s == "adaptive"@ {
        Some(Filter::Adaptive)
    } else {
        None
    }
}

/// A keyword that is absent or not recognised counts as absent.
pub open spec fn parse_optional<T>(s: Option<Seq<char>>, parse: spec_fn(Seq<char>) -> Option<T>) -> Option<T> {
    match s {
        Some(t) => parse(t),
        None => None,
    }
}

/// The encoder setting for a target format and the caller's tuning: JPEG
/// takes the quality if given; PNG takes compression and filter only when
/// both are recognised; everything else uses the format's defaults.
pub open spec fn resolve_options(
    format: Format,
    quality: Option<u8>,
    compression: Option<Seq<char>>,
    filter: Option<Seq<char>>,
) -> EncoderOptions {
    match format {
        Format::Jpeg => match quality {
            Some(q) => EncoderOptions::Jpeg { quality: q },
            None => EncoderOptions::DefaultEncoding,
        },
        Format::Png => match (
            parse_optional(compression, |t: Seq<char>| compression_of(t)),
            parse_optional(filter, |t: Seq<char>| filter_of(t)),
        ) {
            (Some(c), Some(f)) => EncoderOptions::Png { compression: c, filter: f },
            _ => EncoderOptions::DefaultEncoding,
        },
        _ => EncoderOptions::DefaultEncoding,
    }
}

/// Reads a PNG compression keyword.
pub fn parse_compression(s: &str) -> (r: Option<Compression>)
    ensures
        r == compression_of(s@),
{
    if same_text(s, "fast") {
        Some(Compression::Fast)
    } else if same_text(s, "best") {
        Some(Compression::Best)
    } else if same_text(s, "default") {
        Some(Compression::Default)
    } else {
        None
    }
}

/// Reads a PNG filter keyword.
pub fn parse_filter(s: &str) -> (r: Option<Filter>)
    ensures
        r == filter_of(s@),
{
    if same_text(s, "no_filter") {
        Some(Filter::NoFilter)
    } else if same_text(s, "sub") {
        Some(Filter::Sub)
    } else if same_text(s, "up") {
        Some(Filter::Up)
    } else if same_text(s, "avg") {
        Some(Filter::Avg)
    } else if same_text(s, "paeth") {
        Some(Filter::Paeth)
    } else if same_text(s, "adaptive") {
        Some(Filter::Adaptive)
    } else {
        None
    }
}

impl EncoderInput {
    pub fn new(quality: Option<u8>, compression: Option<String>, filter: Option<String>) -> (r: Self)
        ensures
            r.quality == quality,
            text_view(r.compression) == text_view(compression),
            text_view(r.filter) == text_view(filter),
    {
        EncoderInput { quality, compression, filter }
    }

    /// The encoder setting these knobs give for a target format.
    pub open spec fn options_for(&self, format: Format) -> EncoderOptions {
        resolve_options(format, self.quality, text_view(self.compression), text_view(self.filter))
    }

    /// Resolves the knobs for a target format; never fails.
    pub fn to_options(&self, format: Format) -> (r: EncoderOptions)
        ensures
            r == self.options_for(format),
    {
        match format {
            Format::Jpeg => match self.quality {
                Some(q) => EncoderOptions::Jpeg { quality: q },
                None => EncoderOptions::DefaultEncoding,
            },
            Format::Png => {
                let compression = match &self.compression {
                    Some(s) => parse_compression(s.as_str()),
                    None => None,
                };
                let filter = match &self.filter {
                    Some(s) => parse_filter(s.as_str()),
                    None => None,
                };
                match (compression, filter) {
                    (Some(c), Some(f)) => EncoderOptions::Png { compression: c, filter: f },
                    _ => EncoderOptions::DefaultEncoding,
                }
            },
            _ => EncoderOptions::DefaultEncoding,
        }
    }
}

/// PNG tuning in which only one of compression and filter is recognised
/// gives the PNG encoder's defaults, not a guessed value for the other.
pub proof fn lemma_partial_png_tuning_is_default(input: EncoderInput)
    requires
        parse_optional(text_view(input.compression), |t: Seq<char>| compression_of(t)) is None
            || parse_optional(text_view(input.filter), |t: Seq<char>| filter_of(t)) is None,
    ensures
        input.options_for(Format::Png) == EncoderOptions::DefaultEncoding,
{
}

} // verus!
