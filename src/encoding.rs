//! Base64 text for byte strings, in the three forms the tools offer.

use crate::format::Base64Format;
use crate::primitives::{
    base64_decoded, base64_encoded, base64_len, decode_standard, decode_url_safe,
    decode_url_safe_no_pad, encode_standard, encode_url_safe, encode_url_safe_no_pad,
    BASE64_MAX_INPUT,
};
use vstd::prelude::*;

verus! {

/// The base64 text of `data` in `format`; decoding it in the same format
/// gives `data` back.
pub fn process_encode(data: &[u8], format: Base64Format) -> (r: String)
    requires
        data@.len() < BASE64_MAX_INPUT,
    ensures
        r@ == base64_encoded(format, data@),
        r@.len() == base64_len(format, data@.len()),
        base64_decoded(format, r@) == Some(data@),
{
    match format {
        Base64Format::Standard => encode_standard(data),
        Base64Format::UrlSafe => encode_url_safe(data),
        Base64Format::NoPadding => encode_url_safe_no_pad(data),
    }
}

/// The bytes that the base64 text `text` in `format` stands for, or `None`
/// when it is not a valid text of that format.
pub fn process_decode(text: &str, format: Base64Format) -> (r: Option<Vec<u8>>)
    ensures
        r is None <==> base64_decoded(format, text@) is None,
        r matches Some(d) ==> base64_decoded(format, text@) == Some(d@),
{
    match format {
        Base64Format::Standard => decode_standard(text),
        Base64Format::UrlSafe => decode_url_safe(text),
        Base64Format::NoPadding => decode_url_safe_no_pad(text),
    }
}

} // verus!
