use vstd::prelude::*;

use crate::error::Error;
use crate::opts::{lower_of, to_lowercase, str_eq};

verus! {

/// The base64 tool: encode bytes to text, or decode text back.
#[derive(Debug)]
pub enum Base64SubCommand {
    Encode(EncodeOpts),
    Decode(DecodeOpts),
}

/// Arguments of the encode command: input locator and alphabet.
#[derive(Debug)]
pub struct EncodeOpts {
    pub input: String,
    pub format: Base64Format,
}

/// Arguments of the decode command: input locator and alphabet.
#[derive(Debug)]
pub struct DecodeOpts {
    pub input: String,
    pub format: Base64Format,
}

/// The alphabet selector: standard with padding, or URL-safe without.
#[derive(Debug, Clone, Copy, PartialEq, Eq, Structural)]
pub enum Base64Format {
    Standard,
    UrlSafe,
}

/// Which alphabet a selector names, after case folding; a few spellings of
/// the URL-safe one are accepted.
pub open spec fn base64_format_of(lowered: Seq<char>) -> Result<Base64Format, Error> {
    if lowered == "standard"@ {
        Ok(Base64Format::Standard)
    } else if lowered == "urlsafe"@ || lowered == "url_safe"@ || lowered == "url safe"@ {
        Ok(Base64Format::UrlSafe)
    } else {
        Err(Error::UnsupportedScheme)
    }
}

/// Parse an alphabet selector string, case-insensitively.
pub fn parse_format(format: &str) -> (r: Result<Base64Format, Error>)
    ensures
        r == base64_format_of(lower_of(format@)),
{
    let lowered = to_lowercase(format);
    if str_eq(lowered.as_str(), "standard") {
        Ok(Base64Format::Standard)
    } else if str_eq(lowered.as_str(), "urlsafe") || str_eq(lowered.as_str(), "url_safe")
        || str_eq(lowered.as_str(), "url safe") {
        Ok(Base64Format::UrlSafe)
    } else {
        Err(Error::UnsupportedScheme)
    }
}

impl Base64Format {
    /// The selector string of this alphabet.
    pub fn as_str(&self) -> (r: &'static str)
        ensures
            r@ == match self {
                Base64Format::Standard => "standard"@,
                Base64Format::UrlSafe => "urlsafe"@,
            },
    {
        match self {
            Base64Format::Standard => "standard",
            Base64Format::UrlSafe => "urlsafe",
        }
    }
}

impl core::str::FromStr for Base64Format {
    type Err = Error;

    fn from_str(s: &str) -> Result<Base64Format, Error> {
        parse_format(s)
    }
}

} // verus!
