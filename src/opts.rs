//! The options of the command-line tools, as plain values. Paths are kept as
//! text; `-` stands for standard input wherever an input path is expected.

use crate::format::{Base64Format, OutputFormat, TextSignFormat};
use crate::genpass::{class_count, covers_classes, in_classes, process};
use vstd::prelude::*;
use vstd::string::StringExecFns;

verus! {

/// The `text` tool and what it is asked to do.
#[derive(Debug)]
pub struct TextOpts {
    pub subcmd: TextSubCommand,
}

/// The operations of the `text` tool.
#[derive(Debug)]
pub enum TextSubCommand {
    /// Sign an input with a private or shared key.
    Sign(TextSignOpts),
    /// Verify a signature with a public or shared key.
    Verify(TextVerifyOpts),
    /// Generate fresh key material.
    Generate(TextKeyGenerateOpts),
    /// Encrypt an input.
    Encrypt(TextEncryptOpts),
    /// Decrypt an input.
    Decrypt(TextDecryptOpts),
}

/// Where to write fresh key material, and for which format.
#[derive(Debug)]
pub struct TextKeyGenerateOpts {
    pub format: TextSignFormat,
    /// The directory that receives one file per artifact.
    pub output: String,
}

/// What to sign, with which key, under which format.
#[derive(Debug)]
pub struct TextSignOpts {
    pub input: String,
    pub key: String,
    pub format: TextSignFormat,
}

/// What to verify, with which key, against which signature.
#[derive(Debug)]
pub struct TextVerifyOpts {
    pub input: String,
    pub key: String,
    /// The signature, as URL-safe base64 without padding.
    pub sig: String,
    pub format: TextSignFormat,
}

/// What to encrypt, with which key and nonce files.
#[derive(Debug)]
pub struct TextEncryptOpts {
    pub input: String,
    pub key: String,
    pub nonce: String,
}

/// What to decrypt, with which key and nonce files.
#[derive(Debug)]
pub struct TextDecryptOpts {
    pub input: String,
    pub key: String,
    pub nonce: String,
}

/// The `base64` tool and what it is asked to do.
#[derive(Debug)]
pub struct Base64Opts {
    pub subcmd: Base64SubCommand,
}

/// The operations of the `base64` tool.
#[derive(Debug)]
pub enum Base64SubCommand {
    Encode(Base64EncodeOpts),
    Decode(Base64DecodeOpts),
}

/// What to encode, and how.
#[derive(Debug)]
pub struct Base64EncodeOpts {
    pub input: String,
    pub format: Base64Format,
}

/// What to decode, and how it was encoded.
#[derive(Debug)]
pub struct Base64DecodeOpts {
    pub input: String,
    pub format: Base64Format,
}

/// How to convert a CSV file.
#[derive(Debug)]
pub struct CsvOpts {
    pub header: bool,
    pub delimiter: char,
    pub input: String,
    /// Where to write; when absent, `output.` followed by the format's name.
    pub output: Option<String>,
    pub format: OutputFormat,
}

impl CsvOpts {
    /// The path the converted data goes to.
    pub fn output_path(&self) -> (r: String)
        ensures
            r@ == match self.output {
                Some(path) => path@,
                None => "output."@ + self.format.name(),
            },
    {
        match &self.output {
            Some(path) => path.clone(),
            None => {
                let mut path = String::from_str("output.");
                path.append(self.format.as_str());
                path
            },
        }
    }
}

/// The password to generate.
#[derive(Debug)]
pub struct GenpassOpts {
    pub no_upper: bool,
    pub no_lower: bool,
    pub no_number: bool,
    pub no_symbol: bool,
    pub length: u8,
}

impl GenpassOpts {
    /// The password these options ask for, or `None` when every class is
    /// left out and yet a non-empty password is asked for.
    pub fn password(&self) -> (r: Option<Vec<u8>>)
        ensures
            r is None <==> (self.length > 0 && self.no_upper && self.no_lower && self.no_number
                && self.no_symbol),
            r matches Some(p) ==> {
                &&& p@.len() == self.length
                &&& forall|i: int|
                    0 <= i < p@.len() ==> in_classes(
                        self.no_upper,
                        self.no_lower,
                        self.no_number,
                        self.no_symbol,
                        #[trigger] p@[i],
                    )
                &&& self.length >= class_count(
                    self.no_upper,
                    self.no_lower,
                    self.no_number,
                    self.no_symbol,
                ) ==> covers_classes(
                    self.no_upper,
                    self.no_lower,
                    self.no_number,
                    self.no_symbol,
                    p@,
                )
            },
    {
        if self.length > 0 && self.no_upper && self.no_lower && self.no_number && self.no_symbol {
            return None;
        }
        Some(process(self.no_upper, self.no_lower, self.no_number, self.no_symbol, self.length))
    }
}

} // verus!
