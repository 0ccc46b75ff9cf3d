pub mod codec;
mod error;
pub mod opts;
pub mod process;

pub use codec::{decode_signature, encode_signature};
pub use error::Error;
pub use process::{
    Blake3, Ed25519Signer, Ed25519Verifier, GeneratedKeySet, KeyEntry, TextKeyGenerator, TextSign,
    TextVerify, process_decode, process_encode, process_genpass, process_text_generate,
    process_text_sign, process_text_verify,
};
pub use opts::{
    Base64Format, Base64SubCommand, CsvOpts, DecodeOpts, EncodeOpts, GenPassOpts, HttpServeOpts,
    HttpSubCommand, KeyGenerateOpts, Opts, OutputFormat, SubCommand, TextSignFormat, TextSignOpts,
    TextSubCommand, TextVerifyOpts,
};
