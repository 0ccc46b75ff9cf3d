use vstd::prelude::*;

use crate::codec::{
    b64std_decode_raw, b64std_decode_seq, b64std_encode_raw, b64std_encode_seq, b64url_decode_raw,
    b64url_decode_seq, b64url_encode_raw, b64url_encode_seq,
};
use crate::error::Error;
use crate::opts::Base64Format;

verus! {

// ============================================================================
// The stand-alone encode and decode commands, on in-memory bytes.  The
// caller reads the input (file or standard input) and prints the result;
// decode input is trimmed first, so a trailing newline does no harm.
// ============================================================================

/// ASCII whitespace, as trimmed from the ends of decode input.
pub open spec fn is_ascii_ws(b: u8) -> bool {
    b == 32 || b == 9 || b == 10 || b == 11 || b == 12 || b == 13
}

/// `s` without leading whitespace.
pub open spec fn trim_front(s: Seq<u8>) -> Seq<u8>
    decreases s.len(),
{
    if s.len() > 0 && is_ascii_ws(s.first()) {
        trim_front(s.drop_first())
    } else {
        s
    }
}

/// `s` without trailing whitespace.
pub open spec fn trim_back(s: Seq<u8>) -> Seq<u8>
    decreases s.len(),
{
    if s.len() > 0 && is_ascii_ws(s.last()) {
        trim_back(s.drop_last())
    } else {
        s
    }
}

/// `s` without whitespace at either end.
pub open spec fn trim_ws(s: Seq<u8>) -> Seq<u8> {
    trim_back(trim_front(s))
}

/// Drop ASCII whitespace from both ends of `v`.
fn trim_ascii_ws(v: &Vec<u8>) -> (r: Vec<u8>)
    ensures
        r@ == trim_ws(v@),
{
    let len = v.len();
    let mut start: usize = 0;
    proof {
        assert(v@.skip(0) =~= v@);
    }
    while start < len && (v[start] == 32 || v[start] == 9 || v[start] == 10 || v[start] == 11
        || v[start] == 12 || v[start] == 13)
        invariant
            0 <= start <= len,
            len == v@.len(),
            trim_front(v@) == trim_front(v@.skip(start as int)),
        decreases len - start,
    {
        proof {
            assert(v@.skip(start as int).first() == v@[start as int]);
            assert(v@.skip(start as int).drop_first() =~= v@.skip(start as int + 1));
        }
        start += 1;
    }
    proof {
        if start < len {
            assert(v@.skip(start as int).first() == v@[start as int]);
        }
        assert(trim_front(v@) == v@.skip(start as int));
    }
    let ghost mid = v@.skip(start as int);
    let mut end: usize = len;
    while end > start && (v[end - 1] == 32 || v[end - 1] == 9 || v[end - 1] == 10 || v[end - 1]
        == 11 || v[end - 1] == 12 || v[end - 1] == 13)
        invariant
            start <= end <= len,
            len == v@.len(),
            mid == v@.skip(start as int),
            trim_back(mid) == trim_back(v@.subrange(start as int, end as int)),
        decreases end,
    {
        proof {
            let sub = v@.subrange(start as int, end as int);
            assert(sub.last() == v@[end - 1]);
            assert(sub.drop_last() =~= v@.subrange(start as int, end as int - 1));
        }
        end -= 1;
    }
    proof {
        let sub = v@.subrange(start as int, end as int);
        if end > start {
            assert(sub.last() == v@[end - 1]);
        }
        assert(trim_back(mid) == sub);
    }
    let mut r: Vec<u8> = Vec::new();
    let mut i: usize = start;
    while i < end
        invariant
            start <= i <= end <= len,
            len == v@.len(),
            r@ == v@.subrange(start as int, i as int),
        decreases end - i,
    {
        r.push(v[i]);
        i += 1;
        proof {
            assert(r@ =~= v@.subrange(start as int, i as int));
        }
    }
    proof {
        assert(v@.skip(0) =~= v@);
        assert(r@ == trim_ws(v@));
    }
    r
}

/// Encode raw bytes as base64 text under the selected alphabet.
pub fn process_encode(data: &Vec<u8>, format: Base64Format) -> (r: Vec<u8>)
    ensures
        r@ == match format {
            Base64Format::Standard => b64std_encode_seq(data@),
            Base64Format::UrlSafe => b64url_encode_seq(data@),
        },
{
    match format {
        Base64Format::Standard => b64std_encode_raw(data),
        Base64Format::UrlSafe => b64url_encode_raw(data),
    }
}

/// The exact outcome of the decode command: whitespace at the ends is
/// ignored, then the trimmed text either decodes under the selected
/// alphabet or the command fails.
pub open spec fn decode_outcome(text: Seq<u8>, format: Base64Format) -> Result<Seq<u8>, Error> {
    let decoded = match format {
        Base64Format::Standard => b64std_decode_seq(trim_ws(text)),
        Base64Format::UrlSafe => b64url_decode_seq(trim_ws(text)),
    };
    match decoded {
        Some(v) => Ok(v),
        None => Err(Error::InvalidSignatureEncoding),
    }
}

/// Decode base64 text (whitespace-trimmed) back to raw bytes.
pub fn process_decode(text: &Vec<u8>, format: Base64Format) -> (r: Result<Vec<u8>, Error>)
    ensures
        match r {
            Ok(v) => decode_outcome(text@, format) == Ok::<Seq<u8>, Error>(v@),
            Err(e) => decode_outcome(text@, format) == Err::<Seq<u8>, Error>(e),
        },
{
    let trimmed = trim_ascii_ws(text);
    let decoded = match format {
        Base64Format::Standard => b64std_decode_raw(&trimmed),
        Base64Format::UrlSafe => b64url_decode_raw(&trimmed),
    };
    match decoded {
        Ok(v) => Ok(v),
        Err(_) => Err(Error::InvalidSignatureEncoding),
    }
}

} // verus!
