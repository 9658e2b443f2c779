//! Base64 text, as the `base64` crate produces it.

use base64::Engine;
use vstd::prelude::*;
use vstd::string::*;
use vstd::utf8::encode_utf8;

verus! {

/// The padded base64 text of `data` in the standard alphabet.
pub uninterp spec fn standard_base64(data: Seq<u8>) -> Seq<char>;

/// The padded base64 text of `data` in the URL-safe alphabet.
pub uninterp spec fn url_safe_base64(data: Seq<u8>) -> Seq<char>;

/// Whether the base64 text of `len` octets is no longer than the largest
/// allocation of this machine, which is half the range of `usize`.
pub open spec fn encodable(len: nat) -> bool {
    len / 3 * 4 + 4 <= usize::MAX / 2
}

/// Calls `Engine::encode` on `base64::engine::general_purpose::STANDARD`. Nothing is
/// proved of it: the text is taken to be a function of the octets alone, named
/// `standard_base64`. The encoder panics when the length of its output overflows
/// or cannot be allocated, which `requires` rules out.
#[verifier::external_body]
pub(crate) fn base64_standard(data: &[u8]) -> (r: String)
    requires
        encodable(data@.len()),
    ensures
        r@ == standard_base64(data@),
{
    base64::engine::general_purpose::STANDARD.encode(data)
}

/// Calls `Engine::encode` on `base64::engine::general_purpose::URL_SAFE`. Nothing is
/// proved of it: the text is taken to be a function of the octets alone, named
/// `url_safe_base64`. The encoder panics when the length of its output overflows
/// or cannot be allocated, which `requires` rules out.
#[verifier::external_body]
pub(crate) fn base64_url_safe(data: &[u8]) -> (r: String)
    requires
        encodable(data@.len()),
    ensures
        r@ == url_safe_base64(data@),
{
    base64::engine::general_purpose::URL_SAFE.encode(data)
}

/// Whether `len` octets can be encoded on this machine.
pub fn can_encode(len: usize) -> (r: bool)
    ensures
        r == encodable(len as nat),
{
    len / 3 <= (usize::MAX / 2 - 4) / 4
}

/// The standard base64 text of `data`, or `None` when `data` is too long to encode.
pub fn encode_standard(data: &[u8]) -> (r: Option<String>)
    ensures
        r is Some == encodable(data@.len()),
        r is Some ==> r->0@ == standard_base64(data@),
{
    if can_encode(data.len()) {
        Some(base64_standard(data))
    } else {
        None
    }
}

/// The URL-safe base64 text of `data`, or `None` when `data` is too long to encode.
pub fn encode_url_safe(data: &[u8]) -> (r: Option<String>)
    ensures
        r is Some == encodable(data@.len()),
        r is Some ==> r->0@ == url_safe_base64(data@),
{
    if can_encode(data.len()) {
        Some(base64_url_safe(data))
    } else {
        None
    }
}

/// The standard base64 text of the UTF-8 octets of `s`.
pub open spec fn text_base64(s: Seq<char>) -> Seq<char> {
    standard_base64(encode_utf8(s))
}

/// Whether the UTF-8 octets of `s` can be encoded on this machine.
pub open spec fn text_encodable(s: Seq<char>) -> bool {
    encodable(encode_utf8(s).len())
}

/// The standard base64 text of the octets of `s`, or `None` when `s` is too long.
pub fn encode_text(s: &str) -> (r: Option<String>)
    ensures
        r is Some == text_encodable(s@),
        r is Some ==> r->0@ == text_base64(s@),
{
    encode_standard(s.as_bytes())
}

/// What a client encodes to authenticate in one step: a NUL, the user name, a NUL
/// and the password.
pub open spec fn plain_payload(user: Seq<char>, password: Seq<char>) -> Seq<char> {
    seq!['\0'] + user + seq!['\0'] + password
}

/// Builds `plain_payload`.
pub fn plain_text(user: &str, password: &str) -> (r: String)
    ensures
        r@ == plain_payload(user@, password@),
{
    proof {
        reveal_strlit("\0");
    }
    let mut s = String::from_str("\0");
    s.append(user);
    s.append("\0");
    s.append(password);
    s
}

/// Whether `plain_encode` can be called on these credentials.
pub fn plain_encodable(user: &str, password: &str) -> (r: bool)
    ensures
        r == text_encodable(plain_payload(user@, password@)),
{
    let payload = plain_text(user, password);
    can_encode(payload.as_str().as_bytes().len())
}

/// The single-step credential blob: the standard base64 text of `plain_payload`.
pub fn plain_encode(user: &str, password: &str) -> (r: String)
    requires
        text_encodable(plain_payload(user@, password@)),
    ensures
        r@ == text_base64(plain_payload(user@, password@)),
{
    let payload = plain_text(user, password);
    base64_standard(payload.as_str().as_bytes())
}

} // verus!
