use vstd::prelude::*;

use crate::codec::{b64url_decode_seq, b64url_encode_seq, decode_signature, encode_signature};
use crate::error::Error;
use crate::opts::TextSignFormat;
use crate::process::gen_pass::process_genpass;

verus! {

// ============================================================================
// The signing schemes and the operations over them.
//
// Two schemes stand behind one capability set {sign, verify, generate}: a
// symmetric keyed hash (blake3) and an asymmetric key pair (ed25519).  What
// the outside crypto calls return is named by uninterpreted spec functions;
// everything around those names — key validation, signature length rules,
// the codec, and the orchestration — is verified.
// ============================================================================

/// What `blake3::keyed_hash` returns: a digest depending on the 32-byte key
/// and the message alone.
pub uninterp spec fn keyed_hash_of(key: Seq<u8>, msg: Seq<u8>) -> Seq<u8>;

/// What `SigningKey::sign` returns for the key pair derived from `seed`: a
/// deterministic signature (RFC 8032) of the message.
pub uninterp spec fn ed25519_sign_of(seed: Seq<u8>, msg: Seq<u8>) -> Seq<u8>;

/// What `SigningKey::verifying_key` returns: the public key derived from
/// the 32-byte seed.
pub uninterp spec fn ed25519_public_key_of(seed: Seq<u8>) -> Seq<u8>;

/// Whether `VerifyingKey::from_bytes` accepts 32 bytes as a canonical
/// public-key encoding.
pub uninterp spec fn ed25519_valid_public_key(pk: Seq<u8>) -> bool;

/// What `VerifyingKey::verify` decides for a public key, message and
/// 64-byte signature.
pub uninterp spec fn ed25519_verifies(pk: Seq<u8>, msg: Seq<u8>, sig: Seq<u8>) -> bool;

/// Relies on blake3::keyed_hash: a 32-byte keyed digest of the whole input,
/// a function of the key and the input alone.
#[verifier::external_body]
fn blake3_keyed_hash(key: &Vec<u8>, data: &Vec<u8>) -> (r: Vec<u8>)
    requires
        key@.len() == 32,
    ensures
        r@ == keyed_hash_of(key@, data@),
        r@.len() == 32,
{
    let key_arr: &[u8; 32] = key.as_slice().try_into().unwrap();
    blake3::keyed_hash(key_arr, data.as_slice()).as_bytes().to_vec()
}

/// Relies on ed25519_dalek's SigningKey::from_bytes and Signer::sign: a
/// deterministic 64-byte signature derived from the seed and the message
/// alone, which the seed's own verifying key accepts (RFC 8032).
#[verifier::external_body]
fn ed25519_sign_raw(seed: &Vec<u8>, data: &Vec<u8>) -> (r: Vec<u8>)
    requires
        seed@.len() == 32,
    ensures
        r@ == ed25519_sign_of(seed@, data@),
        r@.len() == 64,
        ed25519_verifies(ed25519_public_key_of(seed@), data@, r@),
{
    let seed_arr: &[u8; 32] = seed.as_slice().try_into().unwrap();
    let sk = ed25519_dalek::SigningKey::from_bytes(seed_arr);
    ed25519_dalek::Signer::sign(&sk, data.as_slice()).to_bytes().to_vec()
}

/// Relies on ed25519_dalek's VerifyingKey::from_bytes: whether 32 bytes are
/// a canonical public-key encoding depends on the bytes alone.
#[verifier::external_body]
fn ed25519_check_public_key(pk: &Vec<u8>) -> (r: bool)
    requires
        pk@.len() == 32,
    ensures
        r == ed25519_valid_public_key(pk@),
{
    let arr: &[u8; 32] = pk.as_slice().try_into().unwrap();
    ed25519_dalek::VerifyingKey::from_bytes(arr).is_ok()
}

/// Relies on ed25519_dalek's VerifyingKey::from_bytes, Signature::from_bytes
/// and Verifier::verify: the verdict depends on the public key, the message
/// and the signature alone.
#[verifier::external_body]
fn ed25519_verify_raw(pk: &Vec<u8>, data: &Vec<u8>, sig: &Vec<u8>) -> (r: bool)
    requires
        pk@.len() == 32,
        ed25519_valid_public_key(pk@),
        sig@.len() == 64,
    ensures
        r == ed25519_verifies(pk@, data@, sig@),
{
    let pk_arr: &[u8; 32] = pk.as_slice().try_into().unwrap();
    let key = ed25519_dalek::VerifyingKey::from_bytes(pk_arr).unwrap();
    let sig_arr: &[u8; 64] = sig.as_slice().try_into().unwrap();
    let signature = ed25519_dalek::Signature::from_bytes(sig_arr);
    ed25519_dalek::Verifier::verify(&key, data.as_slice(), &signature).is_ok()
}

/// Relies on ed25519_dalek's SigningKey::generate with rand's OsRng: a
/// fresh 32-byte secret drawn from the operating system's entropy source.
#[verifier::external_body]
fn ed25519_generate_seed() -> (r: Vec<u8>)
    ensures
        r@.len() == 32,
{
    let mut csprng = rand::rngs::OsRng;
    ed25519_dalek::SigningKey::generate(&mut csprng).to_bytes().to_vec()
}

/// Relies on ed25519_dalek's SigningKey::verifying_key: the public key
/// derived from a seed depends on the seed alone and is a canonical,
/// 32-byte encoding.
#[verifier::external_body]
fn ed25519_public_key(seed: &Vec<u8>) -> (r: Vec<u8>)
    requires
        seed@.len() == 32,
    ensures
        r@ == ed25519_public_key_of(seed@),
        r@.len() == 32,
        ed25519_valid_public_key(r@),
{
    let seed_arr: &[u8; 32] = seed.as_slice().try_into().unwrap();
    ed25519_dalek::SigningKey::from_bytes(seed_arr).verifying_key().to_bytes().to_vec()
}

/// Byte-for-byte equality of two vectors.
fn bytes_equal(a: &Vec<u8>, b: &Vec<u8>) -> (r: bool)
    ensures
        r == (a@ == b@),
{
    if a.len() != b.len() {
        return false;
    }
    let mut i: usize = 0;
    while i < a.len()
        invariant
            0 <= i <= a@.len(),
            a@.len() == b@.len(),
            forall|j: int| 0 <= j < i ==> a@[j] == b@[j],
        decreases a@.len() - i,
    {
        if a[i] != b[i] {
            return false;
        }
        i += 1;
    }
    proof {
        assert(a@ =~= b@);
    }
    true
}

/// Copy the first 32 bytes of `key`.
fn first_32(key: &[u8]) -> (r: Vec<u8>)
    requires
        key@.len() >= 32,
    ensures
        r@ == key@.take(32),
{
    let mut r: Vec<u8> = Vec::new();
    let mut i: usize = 0;
    while i < 32
        invariant
            0 <= i <= 32,
            key@.len() >= 32,
            r@ == key@.take(i as int),
        decreases 32 - i,
    {
        r.push(key[i]);
        i += 1;
        proof {
            assert(r@ =~= key@.take(i as int));
        }
    }
    r
}

// ============================================================================
// One generated key set, handed to the caller for persistence.
// ============================================================================

/// One generated key artifact: a logical name and its raw bytes.
pub struct KeyEntry {
    pub name: String,
    pub data: Vec<u8>,
}

/// The artifacts of one generate operation.  The core chooses no file
/// names and writes nothing; ownership passes to the caller whole.
pub struct GeneratedKeySet {
    pub entries: Vec<KeyEntry>,
}

// ============================================================================
// The capability set all schemes share.
// ============================================================================

/// The signing half of a scheme's capability set.
pub trait TextSign {
    /// The scheme object is ready to sign.
    spec fn sign_wf(&self) -> bool;

    /// The raw signature this scheme assigns to a message.
    spec fn signature_of(&self, msg: Seq<u8>) -> Seq<u8>;

    /// The scheme's fixed signature length.
    spec fn signature_len(&self) -> nat;

    /// The verifying side's acceptance of this signer's own signatures:
    /// the sign/verify round trip of the scheme.
    spec fn counterpart_accepts(&self, msg: Seq<u8>, sig: Seq<u8>) -> bool;

    /// Sign the message and return the raw signature bytes.
    fn sign(&self, data: &Vec<u8>) -> (r: Result<Vec<u8>, Error>)
        requires
            self.sign_wf(),
        ensures
            r matches Ok(sig) && sig@ == self.signature_of(data@) && sig@.len()
                == self.signature_len() && self.counterpart_accepts(data@, sig@),
    ;
}

/// The verifying half of a scheme's capability set.
pub trait TextVerify {
    /// The scheme object is ready to verify.
    spec fn verify_wf(&self) -> bool;

    /// Raw signature lengths the scheme examines at all; any other length
    /// is rejected before the cryptographic check.
    spec fn sig_len_ok(&self, sig: Seq<u8>) -> bool;

    /// The scheme's verification predicate.
    spec fn accepts(&self, msg: Seq<u8>, sig: Seq<u8>) -> bool;

    /// Check the signature; a mismatch is the normal `Ok(false)`, never an
    /// error.
    fn verify(&self, data: &Vec<u8>, sig: &Vec<u8>) -> (r: Result<bool, Error>)
        requires
            self.verify_wf(),
        ensures
            self.sig_len_ok(sig@) ==> r == Ok::<bool, Error>(self.accepts(data@, sig@)),
            !self.sig_len_ok(sig@) ==> r == Err::<bool, Error>(Error::InvalidSignatureEncoding),
    ;
}

/// Key generation: a fresh set of named key artifacts.
pub trait TextKeyGenerator {
    /// What the generated set looks like for this scheme.
    spec fn key_set_ok(ks: GeneratedKeySet) -> bool;

    /// Draw fresh key material from a cryptographically secure source.
    fn generate() -> (r: Result<GeneratedKeySet, Error>)
        ensures
            r matches Ok(ks) && Self::key_set_ok(ks),
    ;
}

// ============================================================================
// The symmetric keyed-hash scheme.
// ============================================================================

/// The symmetric keyed-hash scheme: one 32-byte key both signs and
/// verifies; the signature is the 32-byte keyed digest of the input.
pub struct Blake3 {
    key: Vec<u8>,
}

impl Blake3 {
    /// The key this scheme object owns.
    pub closed spec fn spec_key(&self) -> Seq<u8> {
        self.key@
    }

    /// A well-formed scheme object holds exactly 32 key bytes.
    pub open spec fn wf(&self) -> bool {
        self.spec_key().len() == 32
    }

    /// Construct from exactly 32 key bytes.
    pub fn new(key: Vec<u8>) -> (r: Blake3)
        requires
            key@.len() == 32,
        ensures
            r.spec_key() == key@,
            r.wf(),
    {
        Blake3 { key }
    }

    /// Construct from raw key material: at least 32 bytes, of which the
    /// first 32 become the key; fewer fail with `InvalidKeyLength`.
    pub fn try_new(key: &[u8]) -> (r: Result<Blake3, Error>)
        ensures
            key@.len() >= 32 ==> (r matches Ok(b) && b.spec_key() == key@.take(32) && b.wf()),
            key@.len() < 32 ==> r == Err::<Blake3, Error>(Error::InvalidKeyLength),
    {
        if key.len() < 32 {
            return Err(Error::InvalidKeyLength);
        }
        Ok(Blake3::new(first_32(key)))
    }
}

impl TextSign for Blake3 {
    open spec fn sign_wf(&self) -> bool {
        self.wf()
    }

    open spec fn signature_of(&self, msg: Seq<u8>) -> Seq<u8> {
        keyed_hash_of(self.spec_key(), msg)
    }

    open spec fn signature_len(&self) -> nat {
        32
    }

    open spec fn counterpart_accepts(&self, msg: Seq<u8>, sig: Seq<u8>) -> bool {
        sig == keyed_hash_of(self.spec_key(), msg)
    }

    fn sign(&self, data: &Vec<u8>) -> (r: Result<Vec<u8>, Error>) {
        Ok(blake3_keyed_hash(&self.key, data))
    }
}

impl TextVerify for Blake3 {
    open spec fn verify_wf(&self) -> bool {
        self.wf()
    }

    open spec fn sig_len_ok(&self, sig: Seq<u8>) -> bool {
        true
    }

    open spec fn accepts(&self, msg: Seq<u8>, sig: Seq<u8>) -> bool {
        sig == keyed_hash_of(self.spec_key(), msg)
    }

    fn verify(&self, data: &Vec<u8>, sig: &Vec<u8>) -> (r: Result<bool, Error>) {
        let hash = blake3_keyed_hash(&self.key, data);
        Ok(bytes_equal(sig, &hash))
    }
}

impl TextKeyGenerator for Blake3 {
    open spec fn key_set_ok(ks: GeneratedKeySet) -> bool {
        &&& ks.entries@.len() == 1
        &&& ks.entries@[0].name@ == "keyed hash key"@
        &&& ks.entries@[0].data@.len() == 32
        &&& forall|i: int|
            0 <= i < ks.entries@[0].data@.len() ==> crate::process::gen_pass::in_charset(
                ks.entries@[0].data@[i],
                true,
                true,
                true,
                true,
            )
    }

    fn generate() -> (r: Result<GeneratedKeySet, Error>) {
        let key = match process_genpass(32, true, true, true, true) {
            Ok(k) => k,
            Err(_) => {
                return Err(Error::IoError);
            },
        };
        let mut entries: Vec<KeyEntry> = Vec::new();
        entries.push(KeyEntry { name: "keyed hash key".to_owned(), data: key });
        Ok(GeneratedKeySet { entries })
    }
}

/// The symmetric scheme's sign/verify round trip: for every well-formed
/// scheme object and message, the signature it produces is exactly the one
/// its own verifier accepts.
pub proof fn lemma_keyed_hash_round_trip(b: Blake3, msg: Seq<u8>)
    requires
        b.wf(),
    ensures
        b.accepts(msg, b.signature_of(msg)),
{
}

// ============================================================================
// The asymmetric scheme: an ed25519 key pair, one half per object.
// ============================================================================

/// The signer half of the asymmetric scheme: a 32-byte seed from which the
/// key pair is deterministically derived.
pub struct Ed25519Signer {
    key: Vec<u8>,
}

impl Ed25519Signer {
    /// The seed this signer owns.
    pub closed spec fn spec_seed(&self) -> Seq<u8> {
        self.key@
    }

    /// A well-formed signer holds exactly 32 seed bytes.
    pub open spec fn wf(&self) -> bool {
        self.spec_seed().len() == 32
    }

    /// Construct from exactly 32 seed bytes.
    pub fn new(key: Vec<u8>) -> (r: Ed25519Signer)
        requires
            key@.len() == 32,
        ensures
            r.spec_seed() == key@,
            r.wf(),
    {
        Ed25519Signer { key }
    }

    /// Construct from raw key material: at least 32 bytes, of which the
    /// first 32 are the seed; fewer fail with `InvalidKeyLength`.
    pub fn try_new(key: &[u8]) -> (r: Result<Ed25519Signer, Error>)
        ensures
            key@.len() >= 32 ==> (r matches Ok(s) && s.spec_seed() == key@.take(32) && s.wf()),
            key@.len() < 32 ==> r == Err::<Ed25519Signer, Error>(Error::InvalidKeyLength),
    {
        if key.len() < 32 {
            return Err(Error::InvalidKeyLength);
        }
        Ok(Ed25519Signer::new(first_32(key)))
    }
}

impl TextSign for Ed25519Signer {
    open spec fn sign_wf(&self) -> bool {
        self.wf()
    }

    open spec fn signature_of(&self, msg: Seq<u8>) -> Seq<u8> {
        ed25519_sign_of(self.spec_seed(), msg)
    }

    open spec fn signature_len(&self) -> nat {
        64
    }

    open spec fn counterpart_accepts(&self, msg: Seq<u8>, sig: Seq<u8>) -> bool {
        ed25519_verifies(ed25519_public_key_of(self.spec_seed()), msg, sig)
    }

    fn sign(&self, data: &Vec<u8>) -> (r: Result<Vec<u8>, Error>) {
        Ok(ed25519_sign_raw(&self.key, data))
    }
}

impl TextKeyGenerator for Ed25519Signer {
    open spec fn key_set_ok(ks: GeneratedKeySet) -> bool {
        &&& ks.entries@.len() == 2
        &&& ks.entries@[0].name@ == "private key"@
        &&& ks.entries@[0].data@.len() == 32
        &&& ks.entries@[1].name@ == "public key"@
        &&& ks.entries@[1].data@.len() == 32
        &&& ks.entries@[1].data@ == ed25519_public_key_of(ks.entries@[0].data@)
        &&& ed25519_valid_public_key(ks.entries@[1].data@)
    }

    fn generate() -> (r: Result<GeneratedKeySet, Error>) {
        let seed = ed25519_generate_seed();
        let public = ed25519_public_key(&seed);
        let mut entries: Vec<KeyEntry> = Vec::new();
        entries.push(KeyEntry { name: "private key".to_owned(), data: seed });
        entries.push(KeyEntry { name: "public key".to_owned(), data: public });
        Ok(GeneratedKeySet { entries })
    }
}

/// The verifier half of the asymmetric scheme: a 32-byte canonical
/// public-key encoding.
pub struct Ed25519Verifier {
    key: Vec<u8>,
}

impl Ed25519Verifier {
    /// The public key this verifier owns.
    pub closed spec fn spec_public_key(&self) -> Seq<u8> {
        self.key@
    }

    /// A well-formed verifier holds a valid 32-byte public-key encoding.
    pub open spec fn wf(&self) -> bool {
        self.spec_public_key().len() == 32 && ed25519_valid_public_key(self.spec_public_key())
    }

    /// Construct from raw key material: exactly 32 bytes that form a valid
    /// public-key encoding; a wrong length fails with `InvalidKeyLength`, a
    /// bad point with `InvalidKeyEncoding`.
    pub fn try_new(key: &[u8]) -> (r: Result<Ed25519Verifier, Error>)
        ensures
            key@.len() != 32 ==> r == Err::<Ed25519Verifier, Error>(Error::InvalidKeyLength),
            key@.len() == 32 && !ed25519_valid_public_key(key@) ==> r == Err::<
                Ed25519Verifier,
                Error,
            >(Error::InvalidKeyEncoding),
            key@.len() == 32 && ed25519_valid_public_key(key@) ==> (r matches Ok(v)
                && v.spec_public_key() == key@ && v.wf()),
    {
        if key.len() != 32 {
            return Err(Error::InvalidKeyLength);
        }
        let pk = first_32(key);
        proof {
            assert(key@.take(32) =~= key@);
        }
        if !ed25519_check_public_key(&pk) {
            return Err(Error::InvalidKeyEncoding);
        }
        Ok(Ed25519Verifier { key: pk })
    }
}

impl TextVerify for Ed25519Verifier {
    open spec fn verify_wf(&self) -> bool {
        self.wf()
    }

    open spec fn sig_len_ok(&self, sig: Seq<u8>) -> bool {
        sig.len() == 64
    }

    open spec fn accepts(&self, msg: Seq<u8>, sig: Seq<u8>) -> bool {
        ed25519_verifies(self.spec_public_key(), msg, sig)
    }

    fn verify(&self, data: &Vec<u8>, sig: &Vec<u8>) -> (r: Result<bool, Error>) {
        if sig.len() != 64 {
            return Err(Error::InvalidSignatureEncoding);
        }
        Ok(ed25519_verify_raw(&self.key, data, sig))
    }
}

// ============================================================================
// The orchestrator: sign, verify, generate over in-memory values.
// ============================================================================

/// The raw signature the selected scheme assigns to `msg` under the first
/// 32 bytes of `key`.
pub open spec fn scheme_signature(format: TextSignFormat, key: Seq<u8>, msg: Seq<u8>) -> Seq<u8> {
    match format {
        TextSignFormat::Blake3 => keyed_hash_of(key.take(32), msg),
        TextSignFormat::Ed25519 => ed25519_sign_of(key.take(32), msg),
    }
}

/// The exact outcome of the verify operation: decode the signature text,
/// validate the key for the scheme, gate on the scheme's signature length,
/// then apply the scheme's verification predicate.
pub open spec fn verify_outcome(
    format: TextSignFormat,
    key: Seq<u8>,
    msg: Seq<u8>,
    sig_text: Seq<u8>,
) -> Result<bool, Error> {
    match b64url_decode_seq(sig_text) {
        None => Err(Error::InvalidSignatureEncoding),
        Some(sig) => match format {
            TextSignFormat::Blake3 => {
                if key.len() < 32 {
                    Err(Error::InvalidKeyLength)
                } else if sig.len() != 32 {
                    Err(Error::InvalidSignatureEncoding)
                } else {
                    Ok(sig == keyed_hash_of(key.take(32), msg))
                }
            },
            TextSignFormat::Ed25519 => {
                if key.len() != 32 {
                    Err(Error::InvalidKeyLength)
                } else if !ed25519_valid_public_key(key) {
                    Err(Error::InvalidKeyEncoding)
                } else if sig.len() != 64 {
                    Err(Error::InvalidSignatureEncoding)
                } else {
                    Ok(ed25519_verifies(key, msg, sig))
                }
            },
        },
    }
}

/// Sign `message` with the key material under the selected scheme and
/// return the textual (URL-safe base64) signature.
///
/// The returned text decodes back to the raw signature, and for the
/// symmetric scheme the whole verify operation accepts it; for the
/// asymmetric scheme the signature verifies under the seed's public key.
pub fn process_text_sign(message: &Vec<u8>, key: &Vec<u8>, format: TextSignFormat) -> (r: Result<
    Vec<u8>,
    Error,
>)
    ensures
        key@.len() < 32 ==> r == Err::<Vec<u8>, Error>(Error::InvalidKeyLength),
        key@.len() >= 32 ==> (r matches Ok(t) && {
            let sig = scheme_signature(format, key@, message@);
            &&& t@ == b64url_encode_seq(sig)
            &&& b64url_decode_seq(t@) == Some(sig)
            &&& (format == TextSignFormat::Blake3 ==> verify_outcome(format, key@, message@, t@)
                == Ok::<bool, Error>(true))
            &&& (format == TextSignFormat::Ed25519 ==> ed25519_verifies(
                ed25519_public_key_of(key@.take(32)),
                message@,
                sig,
            ))
        }),
{
    let raw = match format {
        TextSignFormat::Blake3 => {
            let signer = match Blake3::try_new(key.as_slice()) {
                Ok(s) => s,
                Err(e) => {
                    return Err(e);
                },
            };
            match signer.sign(message) {
                Ok(sig) => sig,
                Err(e) => {
                    return Err(e);
                },
            }
        },
        TextSignFormat::Ed25519 => {
            let signer = match Ed25519Signer::try_new(key.as_slice()) {
                Ok(s) => s,
                Err(e) => {
                    return Err(e);
                },
            };
            match signer.sign(message) {
                Ok(sig) => sig,
                Err(e) => {
                    return Err(e);
                },
            }
        },
    };
    let text = encode_signature(&raw);
    proof {
        crate::codec::lemma_b64url_round_trip(raw@);
    }
    Ok(text)
}

/// Verify `message` against textual signature `sig` with the key material
/// under the selected scheme.  The outcome is exactly `verify_outcome`.
pub fn process_text_verify(
    message: &Vec<u8>,
    key: &Vec<u8>,
    sig: &Vec<u8>,
    format: TextSignFormat,
) -> (r: Result<bool, Error>)
    ensures
        r == verify_outcome(format, key@, message@, sig@),
{
    let raw = match decode_signature(sig) {
        Ok(v) => v,
        Err(e) => {
            return Err(e);
        },
    };
    match format {
        TextSignFormat::Blake3 => {
            let verifier = match Blake3::try_new(key.as_slice()) {
                Ok(v) => v,
                Err(e) => {
                    return Err(e);
                },
            };
            if raw.len() != 32 {
                return Err(Error::InvalidSignatureEncoding);
            }
            verifier.verify(message, &raw)
        },
        TextSignFormat::Ed25519 => {
            let verifier = match Ed25519Verifier::try_new(key.as_slice()) {
                Ok(v) => v,
                Err(e) => {
                    return Err(e);
                },
            };
            verifier.verify(message, &raw)
        },
    }
}

/// Generate fresh key material for the selected scheme and return the
/// named artifacts for external persistence.
pub fn process_text_generate(format: TextSignFormat) -> (r: Result<GeneratedKeySet, Error>)
    ensures
        r matches Ok(ks) && match format {
            TextSignFormat::Blake3 => <Blake3 as TextKeyGenerator>::key_set_ok(ks),
            TextSignFormat::Ed25519 => <Ed25519Signer as TextKeyGenerator>::key_set_ok(ks),
        },
{
    match format {
        TextSignFormat::Blake3 => Blake3::generate(),
        TextSignFormat::Ed25519 => Ed25519Signer::generate(),
    }
}

} // verus!
