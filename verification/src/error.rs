use vstd::prelude::*;

verus! {

/// The error taxonomy of the signing core.
///
/// Every operation either runs to completion or fails with one of these;
/// none is retried. A failed verification is *not* an error: `verify`
/// returns `Ok(false)` once all inputs were well-formed.
#[derive(Clone, Copy, Debug, PartialEq, Eq, Structural)]
pub enum Error {
    /// An input locator does not resolve to an existing file.
    NotFound,
    /// An underlying read or write failed.
    IoError,
    /// Key material has the wrong length for the selected scheme.
    InvalidKeyLength,
    /// Key material has the right length but is not a valid key encoding.
    InvalidKeyEncoding,
    /// A textual signature is not valid for the codec, or decodes to the
    /// wrong length for the selected scheme.
    InvalidSignatureEncoding,
    /// A scheme or format selector string is not recognised.
    UnsupportedScheme,
}

impl Error {
    /// A short human-readable description, for callers that present errors.
    pub fn message(&self) -> (r: &'static str)
        ensures
            r@ == match self {
                Error::NotFound => "file does not exist"@,
                Error::IoError => "io error"@,
                Error::InvalidKeyLength => "invalid key length"@,
                Error::InvalidKeyEncoding => "invalid key encoding"@,
                Error::InvalidSignatureEncoding => "invalid signature encoding"@,
                Error::UnsupportedScheme => "unsupported format"@,
            },
    {
        match self {
            Error::NotFound => "file does not exist",
            Error::IoError => "io error",
            Error::InvalidKeyLength => "invalid key length",
            Error::InvalidKeyEncoding => "invalid key encoding",
            Error::InvalidSignatureEncoding => "invalid signature encoding",
            Error::UnsupportedScheme => "unsupported format",
        }
    }
}

} // verus!
