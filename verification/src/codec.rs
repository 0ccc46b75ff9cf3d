use vstd::prelude::*;

use crate::error::Error;

verus! {

// ============================================================================
// The signature codec: URL-safe base64 without padding.
//
// A raw signature (32 bytes for the keyed-hash scheme, 64 for the asymmetric
// one) is shown to the user as URL-safe base64 text with no padding, so that
// it is shell- and filename-safe.  The byte-level meaning of that encoding is
// written out below as spec functions; the base64 crate is only trusted to
// compute exactly those functions.  The standard alphabet (with padding) is
// specified as well, for the stand-alone encode/decode commands.
// ============================================================================

/// The 6-bit value of symbol byte `b` in the URL-safe alphabet
/// (`A`-`Z`, `a`-`z`, `0`-`9`, `-`, `_`), or 64 when `b` is no symbol.
pub open spec fn b64url_value(b: u8) -> u8 {
    if 65 <= b && b <= 90 {
        (b - 65) as u8
    } else if 97 <= b && b <= 122 {
        (b - 97 + 26) as u8
    } else if 48 <= b && b <= 57 {
        (b - 48 + 52) as u8
    } else if b == 45 {
        62
    } else if b == 95 {
        63
    } else {
        64
    }
}

/// The symbol byte of the 6-bit value `v` in the URL-safe alphabet.
pub open spec fn b64url_byte(v: u8) -> u8 {
    if v < 26 {
        (65 + v) as u8
    } else if v < 52 {
        (97 + v - 26) as u8
    } else if v < 62 {
        (48 + v - 52) as u8
    } else if v == 62 {
        45
    } else {
        95
    }
}

/// URL-safe base64 without padding: each 3-byte group becomes 4 symbols; a
/// final group of 1 or 2 bytes becomes 2 or 3 symbols and nothing more.
pub open spec fn b64url_encode_seq(s: Seq<u8>) -> Seq<u8>
    decreases s.len(),
{
    if s.len() == 0 {
        Seq::empty()
    } else if s.len() == 1 {
        seq![
            b64url_byte(s[0] >> 2),
            b64url_byte((s[0] & 3) << 4),
        ]
    } else if s.len() == 2 {
        seq![
            b64url_byte(s[0] >> 2),
            b64url_byte(((s[0] & 3) << 4) | (s[1] >> 4)),
            b64url_byte((s[1] & 15) << 2),
        ]
    } else {
        seq![
            b64url_byte(s[0] >> 2),
            b64url_byte(((s[0] & 3) << 4) | (s[1] >> 4)),
            b64url_byte(((s[1] & 15) << 2) | (s[2] >> 6)),
            b64url_byte(s[2] & 63),
        ] + b64url_encode_seq(s.skip(3))
    }
}

/// Decoding of URL-safe unpadded base64.  `None` exactly when the text is
/// malformed: a byte outside the alphabet, a length of 1 modulo 4, or
/// non-zero trailing bits in the final partial group.
pub open spec fn b64url_decode_seq(s: Seq<u8>) -> Option<Seq<u8>>
    decreases s.len(),
{
    if s.len() == 0 {
        Some(Seq::empty())
    } else if s.len() == 1 {
        None
    } else if s.len() == 2 {
        let v0 = b64url_value(s[0]);
        let v1 = b64url_value(s[1]);
        if v0 < 64 && v1 < 64 && v1 & 15 == 0 {
            Some(seq![(v0 << 2) | (v1 >> 4)])
        } else {
            None
        }
    } else if s.len() == 3 {
        let v0 = b64url_value(s[0]);
        let v1 = b64url_value(s[1]);
        let v2 = b64url_value(s[2]);
        if v0 < 64 && v1 < 64 && v2 < 64 && v2 & 3 == 0 {
            Some(seq![(v0 << 2) | (v1 >> 4), ((v1 & 15) << 4) | (v2 >> 2)])
        } else {
            None
        }
    } else {
        let v0 = b64url_value(s[0]);
        let v1 = b64url_value(s[1]);
        let v2 = b64url_value(s[2]);
        let v3 = b64url_value(s[3]);
        if v0 < 64 && v1 < 64 && v2 < 64 && v3 < 64 {
            match b64url_decode_seq(s.skip(4)) {
                Some(rest) => Some(
                    seq![
                        (v0 << 2) | (v1 >> 4),
                        ((v1 & 15) << 4) | (v2 >> 2),
                        ((v2 & 3) << 6) | v3,
                    ] + rest,
                ),
                None => None,
            }
        } else {
            None
        }
    }
}

/// Every 6-bit value maps to a symbol that maps back to it.
proof fn lemma_b64url_byte_value(v: u8)
    requires
        v < 64,
    ensures
        b64url_value(b64url_byte(v)) == v,
{
}

/// Decoding inverts encoding: the textual form of any raw signature decodes
/// back to exactly that signature.
pub proof fn lemma_b64url_round_trip(s: Seq<u8>)
    ensures
        b64url_decode_seq(b64url_encode_seq(s)) == Some(s),
    decreases s.len(),
{
    let e = b64url_encode_seq(s);
    if s.len() == 0 {
        assert(s =~= Seq::<u8>::empty());
    } else if s.len() == 1 {
        let a = s[0];
        assert(a >> 2 < 64 && (a & 3) << 4 < 64) by (bit_vector);
        lemma_b64url_byte_value(a >> 2);
        lemma_b64url_byte_value((a & 3) << 4);
        assert(((a & 3) << 4) & 15 == 0 && ((a >> 2) << 2) | (((a & 3) << 4) >> 4) == a)
            by (bit_vector);
        assert(s =~= seq![a]);
    } else if s.len() == 2 {
        let a = s[0];
        let b = s[1];
        assert(a >> 2 < 64 && ((a & 3) << 4) | (b >> 4) < 64 && (b & 15) << 2 < 64)
            by (bit_vector);
        lemma_b64url_byte_value(a >> 2);
        lemma_b64url_byte_value(((a & 3) << 4) | (b >> 4));
        lemma_b64url_byte_value((b & 15) << 2);
        assert(((b & 15) << 2) & 3 == 0) by (bit_vector);
        assert(((a >> 2) << 2) | ((((a & 3) << 4) | (b >> 4)) >> 4) == a) by (bit_vector);
        assert((((((a & 3) << 4) | (b >> 4)) & 15) << 4) | (((b & 15) << 2) >> 2) == b)
            by (bit_vector);
        assert(s =~= seq![a, b]);
    } else {
        let a = s[0];
        let b = s[1];
        let c = s[2];
        let rest = s.skip(3);
        assert(a >> 2 < 64 && ((a & 3) << 4) | (b >> 4) < 64 && ((b & 15) << 2) | (c >> 6) < 64
            && c & 63 < 64) by (bit_vector);
        lemma_b64url_byte_value(a >> 2);
        lemma_b64url_byte_value(((a & 3) << 4) | (b >> 4));
        lemma_b64url_byte_value(((b & 15) << 2) | (c >> 6));
        lemma_b64url_byte_value(c & 63);
        let quad = seq![
            b64url_byte(a >> 2),
            b64url_byte(((a & 3) << 4) | (b >> 4)),
            b64url_byte(((b & 15) << 2) | (c >> 6)),
            b64url_byte(c & 63),
        ];
        assert(e == quad + b64url_encode_seq(rest));
        assert(e.skip(4) =~= b64url_encode_seq(rest));
        lemma_b64url_round_trip(rest);
        let v0 = a >> 2;
        let v1 = ((a & 3) << 4) | (b >> 4);
        let v2 = ((b & 15) << 2) | (c >> 6);
        let v3 = c & 63;
        assert(((v0 << 2) | (v1 >> 4) == a && ((v1 & 15) << 4) | (v2 >> 2) == b && ((v2 & 3) << 6)
            | v3 == c) && v0 < 64 && v1 < 64 && v2 < 64 && v3 < 64) by (bit_vector)
            requires
                v0 == a >> 2,
                v1 == ((a & 3) << 4) | (b >> 4),
                v2 == ((b & 15) << 2) | (c >> 6),
                v3 == c & 63,
        ;
        assert(b64url_decode_seq(e) == Some(seq![a, b, c] + rest));
        assert(seq![a, b, c] + rest =~= s);
    }
}

// ============================================================================
// The standard alphabet, with padding, for the stand-alone base64 commands.
// ============================================================================

/// The 6-bit value of symbol byte `b` in the standard alphabet
/// (`A`-`Z`, `a`-`z`, `0`-`9`, `+`, `/`), or 64 when `b` is no symbol.
pub open spec fn b64std_value(b: u8) -> u8 {
    if 65 <= b && b <= 90 {
        (b - 65) as u8
    } else if 97 <= b && b <= 122 {
        (b - 97 + 26) as u8
    } else if 48 <= b && b <= 57 {
        (b - 48 + 52) as u8
    } else if b == 43 {
        62
    } else if b == 47 {
        63
    } else {
        64
    }
}

/// The symbol byte of the 6-bit value `v` in the standard alphabet.
pub open spec fn b64std_byte(v: u8) -> u8 {
    if v < 26 {
        (65 + v) as u8
    } else if v < 52 {
        (97 + v - 26) as u8
    } else if v < 62 {
        (48 + v - 52) as u8
    } else if v == 62 {
        43
    } else {
        47
    }
}

/// The padding byte `=`.
pub open spec fn pad_byte() -> u8 {
    61
}

/// Standard base64 with padding: every group of 4 output bytes comes from 3,
/// 2 or 1 input bytes, a short final group padded with `=` to length 4.
pub open spec fn b64std_encode_seq(s: Seq<u8>) -> Seq<u8>
    decreases s.len(),
{
    if s.len() == 0 {
        Seq::empty()
    } else if s.len() == 1 {
        seq![
            b64std_byte(s[0] >> 2),
            b64std_byte((s[0] & 3) << 4),
            pad_byte(),
            pad_byte(),
        ]
    } else if s.len() == 2 {
        seq![
            b64std_byte(s[0] >> 2),
            b64std_byte(((s[0] & 3) << 4) | (s[1] >> 4)),
            b64std_byte((s[1] & 15) << 2),
            pad_byte(),
        ]
    } else {
        seq![
            b64std_byte(s[0] >> 2),
            b64std_byte(((s[0] & 3) << 4) | (s[1] >> 4)),
            b64std_byte(((s[1] & 15) << 2) | (s[2] >> 6)),
            b64std_byte(s[2] & 63),
        ] + b64std_encode_seq(s.skip(3))
    }
}

/// Decoding of standard padded base64.  The length must be a multiple of 4;
/// `=` may appear only at the last one or two positions, after at least two
/// symbols; trailing bits of a padded group must be zero.
pub open spec fn b64std_decode_seq(s: Seq<u8>) -> Option<Seq<u8>>
    decreases s.len(),
{
    if s.len() == 0 {
        Some(Seq::empty())
    } else if s.len() < 4 {
        None
    } else {
        let v0 = b64std_value(s[0]);
        let v1 = b64std_value(s[1]);
        let v2 = b64std_value(s[2]);
        let v3 = b64std_value(s[3]);
        if s.len() == 4 {
            if v0 < 64 && v1 < 64 && s[2] == pad_byte() && s[3] == pad_byte() {
                if v1 & 15 == 0 {
                    Some(seq![(v0 << 2) | (v1 >> 4)])
                } else {
                    None
                }
            } else if v0 < 64 && v1 < 64 && v2 < 64 && s[3] == pad_byte() {
                if v2 & 3 == 0 {
                    Some(seq![(v0 << 2) | (v1 >> 4), ((v1 & 15) << 4) | (v2 >> 2)])
                } else {
                    None
                }
            } else if v0 < 64 && v1 < 64 && v2 < 64 && v3 < 64 {
                Some(
                    seq![
                        (v0 << 2) | (v1 >> 4),
                        ((v1 & 15) << 4) | (v2 >> 2),
                        ((v2 & 3) << 6) | v3,
                    ],
                )
            } else {
                None
            }
        } else {
            if v0 < 64 && v1 < 64 && v2 < 64 && v3 < 64 {
                match b64std_decode_seq(s.skip(4)) {
                    Some(rest) => Some(
                        seq![
                            (v0 << 2) | (v1 >> 4),
                            ((v1 & 15) << 4) | (v2 >> 2),
                            ((v2 & 3) << 6) | v3,
                        ] + rest,
                    ),
                    None => None,
                }
            } else {
                None
            }
        }
    }
}

/// Every 6-bit value maps to a standard symbol that maps back to it, and
/// never to the padding byte.
proof fn lemma_b64std_byte_value(v: u8)
    requires
        v < 64,
    ensures
        b64std_value(b64std_byte(v)) == v,
        b64std_byte(v) != pad_byte(),
{
}

/// The padded encoding always has a length that is a multiple of 4, and a
/// positive one for a non-empty input.
proof fn lemma_b64std_encode_len(s: Seq<u8>)
    ensures
        b64std_encode_seq(s).len() % 4 == 0,
        s.len() > 0 ==> b64std_encode_seq(s).len() >= 4,
    decreases s.len(),
{
    if s.len() >= 3 {
        lemma_b64std_encode_len(s.skip(3));
    }
}

/// Decoding inverts the padded standard encoding as well.
pub proof fn lemma_b64std_round_trip(s: Seq<u8>)
    ensures
        b64std_decode_seq(b64std_encode_seq(s)) == Some(s),
    decreases s.len(),
{
    let e = b64std_encode_seq(s);
    if s.len() == 0 {
        assert(s =~= Seq::<u8>::empty());
    } else if s.len() == 1 {
        let a = s[0];
        assert(a >> 2 < 64 && (a & 3) << 4 < 64) by (bit_vector);
        lemma_b64std_byte_value(a >> 2);
        lemma_b64std_byte_value((a & 3) << 4);
        assert(((a & 3) << 4) & 15 == 0 && ((a >> 2) << 2) | (((a & 3) << 4) >> 4) == a)
            by (bit_vector);
        assert(s =~= seq![a]);
    } else if s.len() == 2 {
        let a = s[0];
        let b = s[1];
        assert(a >> 2 < 64 && ((a & 3) << 4) | (b >> 4) < 64 && (b & 15) << 2 < 64)
            by (bit_vector);
        lemma_b64std_byte_value(a >> 2);
        lemma_b64std_byte_value(((a & 3) << 4) | (b >> 4));
        lemma_b64std_byte_value((b & 15) << 2);
        assert(((b & 15) << 2) & 3 == 0) by (bit_vector);
        assert(((a >> 2) << 2) | ((((a & 3) << 4) | (b >> 4)) >> 4) == a) by (bit_vector);
        assert((((((a & 3) << 4) | (b >> 4)) & 15) << 4) | (((b & 15) << 2) >> 2) == b)
            by (bit_vector);
        assert(s =~= seq![a, b]);
    } else {
        let a = s[0];
        let b = s[1];
        let c = s[2];
        let rest = s.skip(3);
        assert(a >> 2 < 64 && ((a & 3) << 4) | (b >> 4) < 64 && ((b & 15) << 2) | (c >> 6) < 64
            && c & 63 < 64) by (bit_vector);
        lemma_b64std_byte_value(a >> 2);
        lemma_b64std_byte_value(((a & 3) << 4) | (b >> 4));
        lemma_b64std_byte_value(((b & 15) << 2) | (c >> 6));
        lemma_b64std_byte_value(c & 63);
        let quad = seq![
            b64std_byte(a >> 2),
            b64std_byte(((a & 3) << 4) | (b >> 4)),
            b64std_byte(((b & 15) << 2) | (c >> 6)),
            b64std_byte(c & 63),
        ];
        assert(e == quad + b64std_encode_seq(rest));
        let v0 = a >> 2;
        let v1 = ((a & 3) << 4) | (b >> 4);
        let v2 = ((b & 15) << 2) | (c >> 6);
        let v3 = c & 63;
        assert(((v0 << 2) | (v1 >> 4) == a && ((v1 & 15) << 4) | (v2 >> 2) == b && ((v2 & 3) << 6)
            | v3 == c) && v0 < 64 && v1 < 64 && v2 < 64 && v3 < 64) by (bit_vector)
            requires
                v0 == a >> 2,
                v1 == ((a & 3) << 4) | (b >> 4),
                v2 == ((b & 15) << 2) | (c >> 6),
                v3 == c & 63,
        ;
        lemma_b64std_encode_len(rest);
        if rest.len() == 0 {
            assert(e =~= quad);
            assert(e.len() == 4);
            assert(b64std_decode_seq(e) == Some(seq![a, b, c]));
            assert(seq![a, b, c] =~= s);
        } else {
            assert(e.len() > 4);
            assert(e.skip(4) =~= b64std_encode_seq(rest));
            lemma_b64std_round_trip(rest);
            assert(b64std_decode_seq(e) == Some(seq![a, b, c] + rest));
            assert(seq![a, b, c] + rest =~= s);
        }
    }
}

// ============================================================================
// Trusted bindings to the base64 crate.
// ============================================================================

#[verifier::external_type_specification]
#[verifier::external_body]
pub struct ExDecodeError(base64::DecodeError);

/// Relies on base64's `URL_SAFE_NO_PAD` engine: URL-safe alphabet, no
/// padding on encode.
#[verifier::external_body]
pub(crate) fn b64url_encode_raw(data: &Vec<u8>) -> (r: Vec<u8>)
    ensures
        r@ == b64url_encode_seq(data@),
{
    base64::Engine::encode(&base64::engine::general_purpose::URL_SAFE_NO_PAD, data).into_bytes()
}

/// Relies on base64's `URL_SAFE_NO_PAD` engine: decoding rejects bytes
/// outside the alphabet (`=` included), lengths of 1 modulo 4, and non-zero
/// trailing bits.
#[verifier::external_body]
pub(crate) fn b64url_decode_raw(text: &Vec<u8>) -> (r: Result<Vec<u8>, base64::DecodeError>)
    ensures
        match r {
            Ok(v) => b64url_decode_seq(text@) == Some(v@),
            Err(_) => b64url_decode_seq(text@) is None,
        },
{
    base64::Engine::decode(&base64::engine::general_purpose::URL_SAFE_NO_PAD, text)
}

/// Relies on base64's `STANDARD` engine: standard alphabet, padded encode.
#[verifier::external_body]
pub(crate) fn b64std_encode_raw(data: &Vec<u8>) -> (r: Vec<u8>)
    ensures
        r@ == b64std_encode_seq(data@),
{
    base64::Engine::encode(&base64::engine::general_purpose::STANDARD, data).into_bytes()
}

/// Relies on base64's `STANDARD` engine: decoding requires canonical
/// padding to a multiple of 4 and zero trailing bits.
#[verifier::external_body]
pub(crate) fn b64std_decode_raw(text: &Vec<u8>) -> (r: Result<Vec<u8>, base64::DecodeError>)
    ensures
        match r {
            Ok(v) => b64std_decode_seq(text@) == Some(v@),
            Err(_) => b64std_decode_seq(text@) is None,
        },
{
    base64::Engine::decode(&base64::engine::general_purpose::STANDARD, text)
}

// ============================================================================
// The codec's public face.
// ============================================================================

/// Encode a raw signature as URL-safe unpadded base64 text.
pub fn encode_signature(sig: &Vec<u8>) -> (r: Vec<u8>)
    ensures
        r@ == b64url_encode_seq(sig@),
{
    b64url_encode_raw(sig)
}

/// Decode URL-safe unpadded base64 signature text back to raw bytes.
/// Malformed text fails with `InvalidSignatureEncoding`.
pub fn decode_signature(text: &Vec<u8>) -> (r: Result<Vec<u8>, Error>)
    ensures
        match r {
            Ok(v) => b64url_decode_seq(text@) == Some(v@),
            Err(e) => e == Error::InvalidSignatureEncoding && b64url_decode_seq(text@) is None,
        },
{
    match b64url_decode_raw(text) {
        Ok(v) => Ok(v),
        Err(_) => Err(Error::InvalidSignatureEncoding),
    }
}

} // verus!
