//! The closed sets of names that the engine and its tools accept, and how a
//! name given as text is read.

use crate::primitives::{lower_of, lowercase};
use vstd::prelude::*;

verus! {

/// Whether two texts are the same, character by character.
pub fn same_text(a: &str, b: &str) -> (r: bool)
    ensures
        r == (a@ == b@),
{
    let n = a.unicode_len();
    if n != b.unicode_len() {
        return false;
    }
    let mut i: usize = 0;
    while i < n
        invariant
            n == a@.len(),
            n == b@.len(),
            0 <= i <= n,
            forall|j: int| 0 <= j < i ==> a@[j] == b@[j],
        decreases n - i,
    {
        if a.get_char(i) != b.get_char(i) {
            return false;
        }
        i = i + 1;
    }
    assert(a@ =~= b@);
    true
}

/// The algorithm family that an operation of the engine runs under.
#[derive(Debug, Clone, Copy, PartialEq, Eq, Structural)]
pub enum TextSignFormat {
    /// Keyed BLAKE3: sign, verify and generate.
    Blake3,
    /// Ed25519 signatures: sign, verify and generate.
    Ed25519,
    /// ChaCha20-Poly1305 authenticated encryption: encrypt, decrypt and generate.
    ChaCha20Poly1305,
}

impl TextSignFormat {
    /// The format that a lower-case name stands for.
    pub open spec fn named(t: Seq<char>) -> Option<TextSignFormat> {
        if t == "blake3"@ {
            Some(TextSignFormat::Blake3)
        } else if t == "ed25519"@ {
            Some(TextSignFormat::Ed25519)
        } else if t == "chacha20poly1305"@ {
            Some(TextSignFormat::ChaCha20Poly1305)
        } else {
            None
        }
    }

    /// The format that the already lower-cased name `t` stands for.
    pub fn from_lowercase(t: &str) -> (r: Option<Self>)
        ensures
            r == Self::named(t@),
    {
        if same_text(t, "blake3") {
            Some(TextSignFormat::Blake3)
        } else if same_text(t, "ed25519") {
            Some(TextSignFormat::Ed25519)
        } else if same_text(t, "chacha20poly1305") {
            Some(TextSignFormat::ChaCha20Poly1305)
        } else {
            None
        }
    }

    /// The format that `s` names, in any mix of upper and lower case.
    pub fn parse(s: &str) -> (r: Option<Self>)
        ensures
            r == Self::named(lower_of(s@)),
    {
        let t = lowercase(s);
        Self::from_lowercase(t.as_str())
    }

    /// The display name of the format.
    pub fn as_str(&self) -> (r: &'static str)
        ensures
            r@ == match self {
                TextSignFormat::Blake3 => "Blake3"@,
                TextSignFormat::Ed25519 => "Ed25519"@,
                TextSignFormat::ChaCha20Poly1305 => "ChaCha20Poly1305"@,
            },
    {
        match self {
            TextSignFormat::Blake3 => "Blake3",
            TextSignFormat::Ed25519 => "Ed25519",
            TextSignFormat::ChaCha20Poly1305 => "ChaCha20Poly1305",
        }
    }
}

/// The alphabet and padding of a base64 text.
#[derive(Debug, Clone, Copy, PartialEq, Eq, Structural)]
pub enum Base64Format {
    /// The standard alphabet, padded.
    Standard,
    /// The URL-safe alphabet, padded.
    UrlSafe,
    /// The URL-safe alphabet without padding.
    NoPadding,
}

impl Base64Format {
    /// The base64 format that a lower-case name stands for.
    pub open spec fn named(t: Seq<char>) -> Option<Base64Format> {
        if t == "standard"@ {
            Some(Base64Format::Standard)
        } else if t == "urlsafe"@ {
            Some(Base64Format::UrlSafe)
        } else if t == "nopadding"@ {
            Some(Base64Format::NoPadding)
        } else {
            None
        }
    }

    /// The base64 format that the already lower-cased name `t` stands for.
    pub fn from_lowercase(t: &str) -> (r: Option<Self>)
        ensures
            r == Self::named(t@),
    {
        if same_text(t, "standard") {
            Some(Base64Format::Standard)
        } else if same_text(t, "urlsafe") {
            Some(Base64Format::UrlSafe)
        } else if same_text(t, "nopadding") {
            Some(Base64Format::NoPadding)
        } else {
            None
        }
    }

    /// The base64 format that `s` names, in any mix of upper and lower case.
    pub fn parse(s: &str) -> (r: Option<Self>)
        ensures
            r == Self::named(lower_of(s@)),
    {
        let t = lowercase(s);
        Self::from_lowercase(t.as_str())
    }

    /// The name of the base64 format.
    pub fn as_str(&self) -> (r: &'static str)
        ensures
            r@ == match self {
                Base64Format::Standard => "standard"@,
                Base64Format::UrlSafe => "urlsafe"@,
                Base64Format::NoPadding => "nopadding"@,
            },
    {
        match self {
            Base64Format::Standard => "standard",
            Base64Format::UrlSafe => "urlsafe",
            Base64Format::NoPadding => "nopadding",
        }
    }
}

/// The text format that tabular data is converted to.
#[derive(Debug, Clone, Copy, PartialEq, Eq, Structural)]
pub enum OutputFormat {
    /// JSON.
    Json,
    /// YAML.
    Yaml,
}

impl OutputFormat {
    /// The output format that a lower-case name stands for.
    pub open spec fn named(t: Seq<char>) -> Option<OutputFormat> {
        if t == "json"@ {
            Some(OutputFormat::Json)
        } else if t == "yaml"@ {
            Some(OutputFormat::Yaml)
        } else {
            None
        }
    }

    /// The output format that the already lower-cased name `t` stands for.
    pub fn from_lowercase(t: &str) -> (r: Option<Self>)
        ensures
            r == Self::named(t@),
    {
        if same_text(t, "json") {
            Some(OutputFormat::Json)
        } else if same_text(t, "yaml") {
            Some(OutputFormat::Yaml)
        } else {
            None
        }
    }

    /// The output format that `s` names, in any mix of upper and lower case.
    pub fn parse(s: &str) -> (r: Option<Self>)
        ensures
            r == Self::named(lower_of(s@)),
    {
        let t = lowercase(s);
        Self::from_lowercase(t.as_str())
    }

    /// The name of the output format, which is also its file extension.
    pub open spec fn name(self) -> Seq<char> {
        match self {
            OutputFormat::Json => "json"@,
            OutputFormat::Yaml => "yaml"@,
        }
    }

    /// The name of the output format.
    pub fn as_str(&self) -> (r: &'static str)
        ensures
            r@ == self.name(),
    {
        match self {
            OutputFormat::Json => "json",
            OutputFormat::Yaml => "yaml",
        }
    }
}

} // verus!
