pub mod b64;
pub mod csv;
pub mod genpass;
pub mod http;
pub mod text;

pub use b64::{Base64Format, Base64SubCommand, DecodeOpts, EncodeOpts};
pub use csv::{CsvOpts, OutputFormat};
pub use genpass::GenPassOpts;
pub use http::{HttpServeOpts, HttpSubCommand};
pub use text::{KeyGenerateOpts, TextSignFormat, TextSignOpts, TextSubCommand, TextVerifyOpts};

use vstd::prelude::*;

verus! {

/// The parsed command line: exactly one subcommand.
#[derive(Debug)]
pub struct Opts {
    pub cmd: SubCommand,
}

/// One entry per tool the command line offers.
#[derive(Debug)]
pub enum SubCommand {
    Csv(CsvOpts),
    GenPass(GenPassOpts),
    Base64SubCommand(Base64SubCommand),
    Text(TextSubCommand),
    Http(HttpSubCommand),
}

/// Exact string comparison, stated over the views.
pub(crate) fn str_eq(a: &str, b: &str) -> (r: bool)
    ensures
        r == (a@ == b@),
{
    let x: String = a.to_owned();
    let y: String = b.to_owned();
    x == y
}

/// What `str::to_lowercase` returns; it depends on the characters alone.
pub uninterp spec fn lower_of(s: Seq<char>) -> Seq<char>;

/// Relies on str::to_lowercase, for case-insensitive format selectors.
#[verifier::external_body]
pub(crate) fn to_lowercase(s: &str) -> (r: String)
    ensures
        r@ == lower_of(s@),
{
    s.to_lowercase()
}

/// An input locator is accepted when it is the standard-input sentinel `-`
/// or names an existing file; `exists` reports whether the file system has
/// it (the caller's one I/O duty).
pub fn verify_file(filename: &str, exists: bool) -> (r: Result<String, &'static str>)
    ensures
        match r {
            Ok(s) => (filename@ == "-"@ || exists) && s@ == filename@,
            Err(m) => !(filename@ == "-"@ || exists) && m@ == "File does not exist"@,
        },
{
    if str_eq(filename, "-") || exists {
        Ok(filename.to_owned())
    } else {
        Err("File does not exist")
    }
}

/// An output location must name an existing directory; `exists` and
/// `is_dir` report what the file system says of the path.
pub fn verify_path(path: &str, exists: bool, is_dir: bool) -> (r: Result<String, &'static str>)
    ensures
        match r {
            Ok(p) => exists && is_dir && p@ == path@,
            Err(m) => !(exists && is_dir) && m@ == "Path does not exist or is not a directory"@,
        },
{
    if exists && is_dir {
        Ok(path.to_owned())
    } else {
        Err("Path does not exist or is not a directory")
    }
}

/// A plain input file (no standard-input sentinel): it must exist.
pub fn validate_input_file(filename: &str, exists: bool) -> (r: Result<String, &'static str>)
    ensures
        match r {
            Ok(s) => exists && s@ == filename@,
            Err(m) => !exists && m@ == "File does not exist"@,
        },
{
    if exists {
        Ok(filename.to_owned())
    } else {
        Err("File does not exist")
    }
}

} // verus!
