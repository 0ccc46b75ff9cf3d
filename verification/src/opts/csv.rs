use vstd::prelude::*;

use crate::error::Error;
use crate::opts::{lower_of, to_lowercase, str_eq};

verus! {

/// The target format of a CSV conversion.
#[derive(Debug, Clone, Copy, PartialEq, Eq, Structural)]
pub enum OutputFormat {
    Json,
    Yaml,
    Toml,
}

/// Arguments of the CSV command: input locator, optional output name,
/// target format, header handling and field delimiter.
#[derive(Debug)]
pub struct CsvOpts {
    pub input: String,
    pub output: Option<String>,
    pub format: OutputFormat,
    pub header: bool,
    pub delimiter: char,
}

/// Which target format a selector names, after case folding.
pub open spec fn output_format_of(lowered: Seq<char>) -> Result<OutputFormat, Error> {
    if lowered == "json"@ {
        Ok(OutputFormat::Json)
    } else if lowered == "yaml"@ {
        Ok(OutputFormat::Yaml)
    } else if lowered == "toml"@ {
        Ok(OutputFormat::Toml)
    } else {
        Err(Error::UnsupportedScheme)
    }
}

/// Parse a target-format selector string, case-insensitively.
pub fn parse_format(format: &str) -> (r: Result<OutputFormat, Error>)
    ensures
        r == output_format_of(lower_of(format@)),
{
    let lowered = to_lowercase(format);
    if str_eq(lowered.as_str(), "json") {
        Ok(OutputFormat::Json)
    } else if str_eq(lowered.as_str(), "yaml") {
        Ok(OutputFormat::Yaml)
    } else if str_eq(lowered.as_str(), "toml") {
        Ok(OutputFormat::Toml)
    } else {
        Err(Error::UnsupportedScheme)
    }
}

impl OutputFormat {
    /// The selector string of this format, also used as a file extension.
    pub fn as_str(&self) -> (r: &'static str)
        ensures
            r@ == match self {
                OutputFormat::Json => "json"@,
                OutputFormat::Yaml => "yaml"@,
                OutputFormat::Toml => "toml"@,
            },
    {
        match self {
            OutputFormat::Json => "json",
            OutputFormat::Yaml => "yaml",
            OutputFormat::Toml => "toml",
        }
    }
}

impl core::str::FromStr for OutputFormat {
    type Err = Error;

    fn from_str(s: &str) -> Result<OutputFormat, Error> {
        parse_format(s)
    }
}

/// The file extension of a target format, as bytes.
pub open spec fn format_ext(format: OutputFormat) -> Seq<u8> {
    match format {
        OutputFormat::Json => seq![106u8, 115u8, 111u8, 110u8],  // json
        OutputFormat::Yaml => seq![121u8, 97u8, 109u8, 108u8],  // yaml
        OutputFormat::Toml => seq![116u8, 111u8, 109u8, 108u8],  // toml
    }
}

/// `s` ends in `suffix`.
pub open spec fn ends_with_bytes(s: Seq<u8>, suffix: Seq<u8>) -> bool {
    suffix.len() <= s.len() && s.skip(s.len() - suffix.len()) == suffix
}

/// The output file name the CSV command writes to: the given name when it
/// already ends in the format's extension, the name with the extension
/// appended after a dot otherwise, and `output.<ext>` when none was given.
pub open spec fn spec_output_name(output: Option<Seq<u8>>, format: OutputFormat) -> Seq<u8> {
    match output {
        Some(o) => if ends_with_bytes(o, format_ext(format)) {
            o
        } else {
            o + seq![46u8] + format_ext(format)
        },
        None => seq![111u8, 117u8, 116u8, 112u8, 117u8, 116u8, 46u8] + format_ext(format),  // output.
    }
}

/// The extension of `format` as a byte vector.
fn format_ext_bytes(format: OutputFormat) -> (r: Vec<u8>)
    ensures
        r@ == format_ext(format),
{
    let mut r: Vec<u8> = Vec::new();
    match format {
        OutputFormat::Json => {
            r.push(106);
            r.push(115);
            r.push(111);
            r.push(110);
        },
        OutputFormat::Yaml => {
            r.push(121);
            r.push(97);
            r.push(109);
            r.push(108);
        },
        OutputFormat::Toml => {
            r.push(116);
            r.push(111);
            r.push(109);
            r.push(108);
        },
    }
    proof {
        assert(r@ =~= format_ext(format));
    }
    r
}

/// `s` ends in `suffix`, decided byte by byte.
fn bytes_ends_with(s: &Vec<u8>, suffix: &Vec<u8>) -> (r: bool)
    ensures
        r == ends_with_bytes(s@, suffix@),
{
    let n = s.len();
    let m = suffix.len();
    if m > n {
        return false;
    }
    let start = n - m;
    let mut i: usize = 0;
    while i < m
        invariant
            0 <= i <= m,
            m <= n,
            n == s@.len(),
            m == suffix@.len(),
            start == n - m,
            forall|j: int| 0 <= j < i ==> s@[start + j] == suffix@[j],
        decreases m - i,
    {
        if s[start + i] != suffix[i] {
            proof {
                assert(s@.skip(s@.len() - suffix@.len())[i as int] != suffix@[i as int]);
            }
            return false;
        }
        i += 1;
    }
    proof {
        assert(s@.skip(s@.len() - suffix@.len()) =~= suffix@);
    }
    true
}

/// What follows the last `sep` in `path`: the whole path when `sep` does
/// not occur, the empty name after a trailing `sep`.
pub open spec fn basename_of(path: Seq<u8>, sep: u8) -> Seq<u8>
    decreases path.len(),
{
    if path.len() == 0 {
        path
    } else if path.last() == sep {
        Seq::empty()
    } else {
        basename_of(path.drop_last(), sep).push(path.last())
    }
}

/// `name` up to its first dot: the whole name when it has none, the empty
/// stem when it starts with one.
pub open spec fn stem_of(name: Seq<u8>) -> Seq<u8>
    decreases name.len(),
{
    if name.len() == 0 {
        name
    } else if name.first() == 46 {
        Seq::empty()
    } else {
        seq![name.first()] + stem_of(name.drop_first())
    }
}

/// The table name the TOML conversion files its rows under: the input
/// path's basename, up to the first dot.
pub open spec fn spec_table_name(path: Seq<u8>, sep: u8) -> Seq<u8> {
    stem_of(basename_of(path, sep))
}

/// The basename is the suffix after the last separator.
proof fn lemma_basename_is_suffix(path: Seq<u8>, sep: u8, start: int)
    requires
        0 <= start <= path.len(),
        start == 0 || path[start - 1] == sep,
        forall|k: int| start <= k < path.len() ==> path[k] != sep,
    ensures
        basename_of(path, sep) == path.skip(start),
    decreases path.len(),
{
    if path.len() == 0 {
        assert(basename_of(path, sep) =~= path.skip(start));
    } else if path.last() == sep {
        assert(start == path.len());
        assert(basename_of(path, sep) =~= path.skip(start));
    } else {
        assert(start < path.len());
        lemma_basename_is_suffix(path.drop_last(), sep, start);
        assert(basename_of(path.drop_last(), sep).push(path.last()) =~= path.skip(start));
    }
}

/// The stem is the prefix before the first dot.
proof fn lemma_stem_is_prefix(name: Seq<u8>, end: int)
    requires
        0 <= end <= name.len(),
        forall|k: int| 0 <= k < end ==> name[k] != 46,
        end == name.len() || name[end] == 46,
    ensures
        stem_of(name) == name.take(end),
    decreases name.len(),
{
    if name.len() == 0 {
        assert(stem_of(name) =~= name.take(end));
    } else if name.first() == 46 {
        assert(end == 0);
        assert(stem_of(name) =~= name.take(end));
    } else {
        assert(end >= 1);
        lemma_stem_is_prefix(name.drop_first(), end - 1);
        assert(seq![name.first()] + stem_of(name.drop_first()) =~= name.take(end));
    }
}

/// Derive the TOML table name from the input path, as the CSV command does
/// before the conversion runs; the platform's path separator is handed in.
pub fn toml_table_name(path: &Vec<u8>, separator: u8) -> (r: Vec<u8>)
    ensures
        r@ == spec_table_name(path@, separator),
{
    let len = path.len();
    let mut start: usize = len;
    while start > 0 && path[start - 1] != separator
        invariant
            0 <= start <= len,
            len == path@.len(),
            forall|k: int| start <= k < len ==> path@[k] != separator,
        decreases start,
    {
        start -= 1;
    }
    let mut end: usize = start;
    while end < len && path[end] != 46
        invariant
            start <= end <= len,
            len == path@.len(),
            forall|k: int| start <= k < end ==> path@[k] != 46,
        decreases len - end,
    {
        end += 1;
    }
    let mut r: Vec<u8> = Vec::new();
    let mut i: usize = start;
    while i < end
        invariant
            start <= i <= end <= len,
            len == path@.len(),
            r@ == path@.subrange(start as int, i as int),
        decreases end - i,
    {
        r.push(path[i]);
        i += 1;
        proof {
            assert(r@ =~= path@.subrange(start as int, i as int));
        }
    }
    proof {
        lemma_basename_is_suffix(path@, separator, start as int);
        lemma_stem_is_prefix(path@.skip(start as int), end - start);
        assert(path@.skip(start as int).take(end - start) =~= path@.subrange(
            start as int,
            end as int,
        ));
        assert(r@ =~= path@.subrange(start as int, end as int));
    }
    r
}

/// Resolve the name of the file the conversion writes, as the CSV command
/// does before running it.
pub fn resolve_output_name(output: Option<Vec<u8>>, format: OutputFormat) -> (r: Vec<u8>)
    ensures
        r@ == spec_output_name(
            match output {
                Some(o) => Some(o@),
                None => None,
            },
            format,
        ),
{
    let mut ext = format_ext_bytes(format);
    match output {
        Some(mut o) => {
            let ghost o0 = o@;
            if bytes_ends_with(&o, &ext) {
                o
            } else {
                o.push(46);
                o.append(&mut ext);
                proof {
                    assert(o@ =~= o0 + seq![46u8] + format_ext(format));
                }
                o
            }
        },
        None => {
            let mut r: Vec<u8> = Vec::new();
            r.push(111);
            r.push(117);
            r.push(116);
            r.push(112);
            r.push(117);
            r.push(116);
            r.push(46);
            r.append(&mut ext);
            proof {
                assert(r@ =~= seq![111u8, 117u8, 116u8, 112u8, 117u8, 116u8, 46u8] + format_ext(
                    format,
                ));
            }
            r
        },
    }
}

} // verus!
