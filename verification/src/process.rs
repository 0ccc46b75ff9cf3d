pub mod b64;
pub mod gen_pass;
pub mod text;

pub use b64::{process_decode, process_encode};
pub use gen_pass::process_genpass;
pub use text::{
    Blake3, Ed25519Signer, Ed25519Verifier, GeneratedKeySet, KeyEntry, TextKeyGenerator, TextSign,
    TextVerify, process_text_generate, process_text_sign, process_text_verify,
};
