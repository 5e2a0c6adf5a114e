//! The closed sets of names a caller selects by: the Base64 flavour, the
//! signature algorithm and the output format of a conversion.
use vstd::prelude::*;
use crate::bytes::text_equal;

verus! {

/// A name that belongs to none of the formats asked for.
#[derive(Debug, Clone, Copy, PartialEq, Eq, Structural)]
pub enum FormatError {
    InvalidBase64Format,
    InvalidTextSignFormat,
    InvalidOutputFormat,
}

impl FormatError {
    pub open spec fn message_spec(self) -> Seq<char> {
        match self {
            FormatError::InvalidBase64Format => "invalid base64 format"@,
            FormatError::InvalidTextSignFormat => "invalid text sign format"@,
            FormatError::InvalidOutputFormat => "Invalid output format"@,
        }
    }

    /// The text shown for this error.
    pub fn message(self) -> (r: &'static str)
        ensures
            r@ == self.message_spec(),
    {
        match self {
            FormatError::InvalidBase64Format => "invalid base64 format",
            FormatError::InvalidTextSignFormat => "invalid text sign format",
            FormatError::InvalidOutputFormat => "Invalid output format",
        }
    }
}

/// The two Base64 flavours: the conventional alphabet with padding, and the
/// URL-safe alphabet without padding.
#[derive(Debug, Clone, Copy, PartialEq, Eq, Structural)]
pub enum Base64Format {
    Standard,
    UrlSafe,
}

impl Base64Format {
    pub open spec fn name_spec(self) -> Seq<char> {
        match self {
            Base64Format::Standard => "standard"@,
            Base64Format::UrlSafe => "urlsafe"@,
        }
    }

    /// Whether this is the URL-safe, unpadded flavour.
    pub open spec fn url_safe(self) -> bool {
        self == Base64Format::UrlSafe
    }

    /// The name by which the format is selected; it selects this one again.
    pub fn name(self) -> (r: &'static str)
        ensures
            r@ == self.name_spec(),
            base64_format_named(r@) == Some(self),
    {
        proof {
            lemma_base64_format_name_round_trip(self);
        }
        match self {
            Base64Format::Standard => "standard",
            Base64Format::UrlSafe => "urlsafe",
        }
    }
}

/// The format that a name selects, if any.
pub open spec fn base64_format_named(s: Seq<char>) -> Option<Base64Format> {
    if s == "standard"@ {
        Some(Base64Format::Standard)
    } else if s == "urlsafe"@ {
        Some(Base64Format::UrlSafe)
    } else {
        None
    }
}

/// Reads a Base64 flavour from its name; names are matched exactly.
pub fn parse_base64_format(format: &str) -> (r: Result<Base64Format, FormatError>)
    ensures
        r == match base64_format_named(format@) {
            Some(f) => Ok::<Base64Format, FormatError>(f),
            None => Err(FormatError::InvalidBase64Format),
        },
{
    if text_equal(format, "standard") {
        Ok(Base64Format::Standard)
    } else if text_equal(format, "urlsafe") {
        Ok(Base64Format::UrlSafe)
    } else {
        Err(FormatError::InvalidBase64Format)
    }
}

/// Every Base64 flavour is found again under its own name.
pub proof fn lemma_base64_format_name_round_trip(f: Base64Format)
    ensures
        base64_format_named(f.name_spec()) == Some(f),
{
    reveal_strlit("standard");
    reveal_strlit("urlsafe");
    assert("standard"@.len() != "urlsafe"@.len());
}

/// The signature algorithms: a keyed BLAKE3 hash, or Ed25519.
#[derive(Debug, Clone, Copy, PartialEq, Eq, Structural)]
pub enum TextSignFormat {
    Blake3,
    Ed25519,
}

impl TextSignFormat {
    pub open spec fn name_spec(self) -> Seq<char> {
        match self {
            TextSignFormat::Blake3 => "blake3"@,
            TextSignFormat::Ed25519 => "ed25519"@,
        }
    }

    /// The name by which the algorithm is selected; it selects this one again.
    pub fn name(self) -> (r: &'static str)
        ensures
            r@ == self.name_spec(),
            text_sign_format_named(r@) == Some(self),
    {
        proof {
            lemma_text_sign_format_name_round_trip(self);
        }
        match self {
            TextSignFormat::Blake3 => "blake3",
            TextSignFormat::Ed25519 => "ed25519",
        }
    }
}

/// The algorithm that a name selects, if any.
pub open spec fn text_sign_format_named(s: Seq<char>) -> Option<TextSignFormat> {
    if s == "blake3"@ {
        Some(TextSignFormat::Blake3)
    } else if s == "ed25519"@ {
        Some(TextSignFormat::Ed25519)
    } else {
        None
    }
}

/// Reads a signature algorithm from its name; names are matched exactly.
pub fn parse_text_sign_format(format: &str) -> (r: Result<TextSignFormat, FormatError>)
    ensures
        r == match text_sign_format_named(format@) {
            Some(f) => Ok::<TextSignFormat, FormatError>(f),
            None => Err(FormatError::InvalidTextSignFormat),
        },
{
    if text_equal(format, "blake3") {
        Ok(TextSignFormat::Blake3)
    } else if text_equal(format, "ed25519") {
        Ok(TextSignFormat::Ed25519)
    } else {
        Err(FormatError::InvalidTextSignFormat)
    }
}

/// Every signature algorithm is found again under its own name.
pub proof fn lemma_text_sign_format_name_round_trip(f: TextSignFormat)
    ensures
        text_sign_format_named(f.name_spec()) == Some(f),
{
    reveal_strlit("blake3");
    reveal_strlit("ed25519");
    assert("blake3"@.len() != "ed25519"@.len());
}

/// The output formats of a table conversion.
#[derive(Debug, Clone, Copy, PartialEq, Eq, Structural)]
pub enum OutputFormat {
    Json,
    Yaml,
}

impl OutputFormat {
    pub open spec fn name_spec(self) -> Seq<char> {
        match self {
            OutputFormat::Json => "json"@,
            OutputFormat::Yaml => "yaml"@,
        }
    }

    /// The name by which the format is selected; it selects this one again.
    pub fn name(self) -> (r: &'static str)
        ensures
            r@ == self.name_spec(),
            output_format_named(r@) == Some(self),
    {
        proof {
            lemma_output_format_name_round_trip(self);
        }
        match self {
            OutputFormat::Json => "json",
            OutputFormat::Yaml => "yaml",
        }
    }
}

/// The output format that a name selects, if any.
pub open spec fn output_format_named(s: Seq<char>) -> Option<OutputFormat> {
    if s == "json"@ {
        Some(OutputFormat::Json)
    } else if s == "yaml"@ {
        Some(OutputFormat::Yaml)
    } else {
        None
    }
}

/// Reads an output format from its name; names are matched exactly.
pub fn parse_format(format: &str) -> (r: Result<OutputFormat, FormatError>)
    ensures
        r == match output_format_named(format@) {
            Some(f) => Ok::<OutputFormat, FormatError>(f),
            None => Err(FormatError::InvalidOutputFormat),
        },
{
    if text_equal(format, "json") {
        Ok(OutputFormat::Json)
    } else if text_equal(format, "yaml") {
        Ok(OutputFormat::Yaml)
    } else {
        Err(FormatError::InvalidOutputFormat)
    }
}

/// Every output format is found again under its own name.
pub proof fn lemma_output_format_name_round_trip(f: OutputFormat)
    ensures
        output_format_named(f.name_spec()) == Some(f),
{
    reveal_strlit("json");
    reveal_strlit("yaml");
    assert("json"@[0] != "yaml"@[0]);
}

} // verus!
