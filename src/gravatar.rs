//! Avatar URLs on the Gravatar service, derived from an e-mail address.
use vstd::prelude::*;
use vstd::string::*;

verus! {

/// What `str::to_lowercase` returns for a string.
pub uninterp spec fn lower_of(s: Seq<char>) -> Seq<char>;

/// The MD5 digest of the UTF-8 encoding of a string, as 32 lower-case
/// hexadecimal digits.
pub uninterp spec fn md5_hex_of(s: Seq<char>) -> Seq<char>;

/// Relies on `str::to_lowercase`: the result depends on the characters alone.
#[verifier::external_body]
fn lowercase(s: &str) -> (r: String)
    ensures
        r@ == lower_of(s@),
{
    s.to_lowercase()
}

/// Relies on `md5::compute` over the bytes of `s`, printed with the digest's
/// `LowerHex` format (two digits for each of its sixteen bytes).
#[verifier::external_body]
fn md5_hex(s: &str) -> (r: String)
    ensures
        r@ == md5_hex_of(s@),
{
    format!("{:x}", md5::compute(s.as_bytes()))
}

/// The Gravatar URL of the image whose hash is `hash`, at 128 pixels.
pub open spec fn gravatar_url(hash: Seq<char>) -> Seq<char> {
    "https://www.gravatar.com/avatar/"@ + hash + ".jpg?s=128"@
}

/// Builds the Gravatar URL for an address hash.
pub fn gravatar_url_from_hash(hash: &str) -> (r: String)
    ensures
        r@ == gravatar_url(hash@),
{
    let mut url = String::from_str("https://www.gravatar.com/avatar/");
    url.append(hash);
    url.append(".jpg?s=128");
    url
}

/// The Gravatar URL for an e-mail address: the MD5 of the lower-cased address.
pub fn make_gravatar_url(email: String) -> (r: String)
    ensures
        r@ == gravatar_url(md5_hex_of(lower_of(email@))),
{
    let fixed = lowercase(email.as_str());
    let hash = md5_hex(fixed.as_str());
    gravatar_url_from_hash(hash.as_str())
}

} // verus!
