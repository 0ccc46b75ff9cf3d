use vstd::prelude::*;

verus! {

/// Arguments of the password generator: length and which character classes
/// to draw from.
#[derive(Debug)]
pub struct GenPassOpts {
    pub length: u8,
    pub uppercase: bool,
    pub lowercase: bool,
    pub number: bool,
    pub symbol: bool,
}

} // verus!
