use vstd::prelude::*;

use crate::error::Error;
use crate::opts::str_eq;

verus! {

/// The text tool: sign a message, verify one, or generate key material.
#[derive(Debug)]
pub enum TextSubCommand {
    Sign(TextSignOpts),
    Verify(TextVerifyOpts),
    Generate(KeyGenerateOpts),
}

/// Arguments of the sign operation: input locator, key locator, scheme.
#[derive(Debug)]
pub struct TextSignOpts {
    pub input: String,
    pub key: String,
    pub format: TextSignFormat,
}

/// Arguments of the verify operation: as for sign, plus the signature text.
#[derive(Debug)]
pub struct TextVerifyOpts {
    pub input: String,
    pub key: String,
    pub sig: String,
    pub format: TextSignFormat,
}

/// Arguments of the generate operation: scheme and output directory.
#[derive(Debug)]
pub struct KeyGenerateOpts {
    pub format: TextSignFormat,
    pub output_path: String,
}

/// The scheme selector: symmetric keyed hash, or asymmetric key pair.
#[derive(Debug, Clone, Copy, PartialEq, Eq, Structural)]
pub enum TextSignFormat {
    Blake3,
    Ed25519,
}

/// Which scheme a selector string names; anything else is unsupported.
pub open spec fn text_sign_format_of(s: Seq<char>) -> Result<TextSignFormat, Error> {
    if s == "blake3"@ {
        Ok(TextSignFormat::Blake3)
    } else if s == "ed25519"@ {
        Ok(TextSignFormat::Ed25519)
    } else {
        Err(Error::UnsupportedScheme)
    }
}

/// Parse a scheme selector string.
pub fn parse_text_sign_format(format: &str) -> (r: Result<TextSignFormat, Error>)
    ensures
        r == text_sign_format_of(format@),
{
    if str_eq(format, "blake3") {
        Ok(TextSignFormat::Blake3)
    } else if str_eq(format, "ed25519") {
        Ok(TextSignFormat::Ed25519)
    } else {
        Err(Error::UnsupportedScheme)
    }
}

impl TextSignFormat {
    /// The selector string of this scheme.
    pub fn as_str(&self) -> (r: &'static str)
        ensures
            r@ == match self {
                TextSignFormat::Blake3 => "blake3"@,
                TextSignFormat::Ed25519 => "ed25519"@,
            },
    {
        match self {
            TextSignFormat::Blake3 => "blake3",
            TextSignFormat::Ed25519 => "ed25519",
        }
    }
}

impl core::str::FromStr for TextSignFormat {
    type Err = Error;

    fn from_str(s: &str) -> Result<TextSignFormat, Error> {
        parse_text_sign_format(s)
    }
}

} // verus!
