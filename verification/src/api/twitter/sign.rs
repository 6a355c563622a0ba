//! The pieces of request signing that other crates compute: HMAC-SHA1,
//! base64 and random text.
use vstd::prelude::*;

verus! {

/// The longest key and the longest text, in bytes, that are handed over for
/// signing.
pub const SIGNED_MAX: u64 = 0x0fff_ffff_ffff_ffff;

/// The longest input, in bytes, that is handed over for base64.
pub open spec fn base64_max() -> int {
    (usize::MAX / 512) as int
}

/// The HMAC-SHA1 tag of `text` under `key`.
pub uninterp spec fn hmac_sha1(key: Seq<u8>, text: Seq<u8>) -> Seq<u8>;

/// The padded base64 text of `bytes`.
pub uninterp spec fn base64(bytes: Seq<u8>) -> Seq<char>;

/// Calls `ring::hmac::Key::new` with `HMAC_SHA1_FOR_LEGACY_USE_ONLY` and
/// `ring::hmac::sign`. The tag depends on key and text alone and is as long
/// as a SHA-1 digest, twenty bytes. `ring` panics where the bit length of
/// what it hashes does not fit in 64 bits, so both inputs are bounded.
#[verifier::external_body]
pub(crate) fn sign_hmac_sha1(key: &[u8], text: &[u8]) -> (tag: Vec<u8>)
    requires
        key@.len() <= SIGNED_MAX,
        text@.len() <= SIGNED_MAX,
    ensures
        tag@ == hmac_sha1(key@, text@),
        tag@.len() == 20,
{
    let key = ring::hmac::Key::new(ring::hmac::HMAC_SHA1_FOR_LEGACY_USE_ONLY, key);
    ring::hmac::sign(&key, text).as_ref().to_vec()
}

/// Calls `data_encoding::BASE64.encode`, the padded encoding of RFC 4648. It
/// panics on an input longer than `usize::MAX / 512` bytes.
#[verifier::external_body]
pub(crate) fn encode_base64(bytes: &[u8]) -> (out: String)
    requires
        bytes@.len() <= base64_max(),
    ensures
        out@ == base64(bytes@),
{
    data_encoding::BASE64.encode(bytes)
}

/// Whether the character is an ASCII letter or digit.
pub open spec fn is_alphanumeric(c: char) -> bool {
    ('0' <= c <= '9') || ('A' <= c <= 'Z') || ('a' <= c <= 'z')
}

/// Whether the text can serve as a nonce of `len` characters.
pub open spec fn is_nonce(text: Seq<char>, len: nat) -> bool {
    &&& text.len() == len
    &&& forall|i: int| 0 <= i < text.len() ==> is_alphanumeric(#[trigger] text[i])
}

/// Calls `rand::distr::SampleString::sample_string` of `Alphanumeric` on the
/// thread's generator: `len` characters, each an ASCII letter or digit. Which
/// ones is a matter of chance; the generator panics if the system cannot seed
/// it.
#[verifier::external_body]
pub(crate) fn random_alphanumeric(len: usize) -> (out: String)
    ensures
        is_nonce(out@, len as nat),
{
    rand::distr::SampleString::sample_string(&rand::distr::Alphanumeric, &mut rand::rng(), len)
}

} // verus!
