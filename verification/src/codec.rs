//! Encoding and decoding of payload bytes: decimal rendering of integer
//! timestamps, and UTF-8 decoding with a placeholder on failure.

use vstd::prelude::*;

verus! {

/// What decoding a byte sequence as UTF-8 yields: the decoded characters,
/// or nothing when the bytes are not well-formed UTF-8.
pub uninterp spec fn utf8_decode(b: Seq<u8>) -> Option<Seq<char>>;

/// The text substituted for a payload that is not valid UTF-8.
pub open spec fn invalid_utf8_placeholder() -> Seq<char> {
    "Invalid UTF-8"@
}

/// The text a received payload decodes to: its UTF-8 decoding when the bytes
/// are well-formed, and the placeholder otherwise.
pub open spec fn decoded_text(b: Seq<u8>) -> Seq<char> {
    match utf8_decode(b) {
        Some(s) => s,
        None => invalid_utf8_placeholder(),
    }
}

/// Relies on String::from_utf8: it succeeds exactly on well-formed UTF-8
/// input, the decoded text is a function of the bytes alone, and an empty
/// input decodes to the empty string.
#[verifier::external_body]
fn utf8_to_string(b: Vec<u8>) -> (r: Option<String>)
    ensures
        r is Some <==> utf8_decode(b@) is Some,
        r is Some ==> r.unwrap()@ == utf8_decode(b@).unwrap(),
        b@.len() == 0 ==> r is Some && r.unwrap()@.len() == 0,
{
    String::from_utf8(b).ok()
}

/// Decodes payload bytes as UTF-8 text, substituting a fixed placeholder
/// string when the bytes are not well-formed UTF-8.
pub fn decode_or_placeholder(b: Vec<u8>) -> (s: String)
    ensures
        s@ == decoded_text(b@),
{
    match utf8_to_string(b) {
        Some(s) => s,
        None => "Invalid UTF-8".to_owned(),
    }
}

/// The decimal digits of `n`, most significant first, as ASCII bytes.
pub open spec fn spec_decimal(n: nat) -> Seq<u8>
    decreases n,
{
    if n < 10 {
        seq![(48 + n) as u8]
    } else {
        spec_decimal(n / 10).push((48 + n % 10) as u8)
    }
}

/// Renders `n` in decimal as ASCII bytes, most significant digit first.
pub fn u64_to_decimal(n: u64) -> (s: Vec<u8>)
    ensures
        s@ == spec_decimal(n as nat),
    decreases n,
{
    if n < 10 {
        let mut s: Vec<u8> = Vec::new();
        s.push(48 + (n as u8));
        assert(s@ =~= spec_decimal(n as nat));
        s
    } else {
        let mut s = u64_to_decimal(n / 10);
        s.push(48 + ((n % 10) as u8));
        s
    }
}

} // verus!
