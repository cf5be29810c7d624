//! Digests, keyed tags and base64, as the signing protocol uses them.
//!
//! The algorithms themselves are those of the `md5`, `hmac`, `sha2` and
//! `base64` crates. Each is known here by a name for its result; the verified
//! functions of this module say which bytes go in and what is done with what
//! comes out.

use base64::Engine;
use hmac::Mac;
use vstd::prelude::*;
use vstd::string::*;

verus! {

#[verifier::external_type_specification]
#[verifier::external_body]
pub struct ExDecodeError(base64::DecodeError);

#[verifier::external_type_specification]
#[verifier::external_body]
pub struct ExInvalidLength(hmac::digest::InvalidLength);

/// The MD5 digest of `data`.
pub uninterp spec fn md5_digest(data: Seq<u8>) -> Seq<u8>;

/// The HMAC-SHA256 tag of `message` under `key`.
pub uninterp spec fn hmac_sha256_tag(key: Seq<u8>, message: Seq<u8>) -> Seq<u8>;

/// The standard, padded base64 text of `data`.
pub uninterp spec fn base64_text(data: Seq<u8>) -> Seq<char>;

/// The bytes that `text` stands for in standard, padded base64, or `None`
/// where `text` is no such encoding.
pub uninterp spec fn base64_bytes(text: Seq<char>) -> Option<Seq<u8>>;

/// Why a request could not be signed.
#[derive(Clone, Copy, Debug, PartialEq, Eq, Structural)]
pub enum SigningError {
    /// The secret key is not valid base64.
    InvalidSecretKeyEncoding,
    /// The secret key decodes to no bytes at all.
    InvalidSecretKeyLength,
}

impl SigningError {
    /// The message of this error.
    pub open spec fn message_text(self) -> Seq<char> {
        match self {
            SigningError::InvalidSecretKeyEncoding => "Invalid secret key: not valid base64"@,
            SigningError::InvalidSecretKeyLength => "Invalid secret key length"@,
        }
    }

    /// Says what is wrong with the secret key.
    pub fn message(&self) -> (r: String)
        ensures
            r@ == self.message_text(),
    {
        match self {
            SigningError::InvalidSecretKeyEncoding => {
                "Invalid secret key: not valid base64".to_owned()
            },
            SigningError::InvalidSecretKeyLength => "Invalid secret key length".to_owned(),
        }
    }
}

/// Calls `md5::compute` on `data` and hands back the sixteen bytes of its
/// `Digest`. The contract claims only that they are a function of `data`,
/// known as `md5_digest`.
#[verifier::external_body]
fn md5_compute(data: &[u8]) -> (r: [u8; 16])
    ensures
        r@ == md5_digest(data@),
{
    md5::compute(data).0
}

/// Calls `Engine::encode` of `base64::engine::general_purpose::STANDARD`.
/// That function panics where the encoded length does not fit in `usize`,
/// which the precondition rules out; the contract claims that the text is a
/// function of `data`, known as `base64_text`.
#[verifier::external_body]
fn base64_encode(data: &[u8]) -> (r: String)
    requires
        4 * ((data@.len() + 2) / 3) <= usize::MAX,
    ensures
        r@ == base64_text(data@),
{
    base64::engine::general_purpose::STANDARD.encode(data)
}

/// Calls `Engine::decode` of `base64::engine::general_purpose::STANDARD`.
/// The contract claims that success and the decoded bytes are a function of
/// `text`, known as `base64_bytes`.
#[verifier::external_body]
fn base64_decode(text: &str) -> (r: Result<Vec<u8>, base64::DecodeError>)
    ensures
        match r {
            Ok(bytes) => base64_bytes(text@) == Some(bytes@),
            Err(_) => base64_bytes(text@) is None,
        },
{
    base64::engine::general_purpose::STANDARD.decode(text)
}

/// Runs one HMAC-SHA256 computation of the `hmac` crate: `Mac::new_from_slice`
/// on `Hmac<Sha256>` with `key`, `Mac::update` with `message`, `Mac::finalize`,
/// and the tag's 32 bytes. The contract claims that the tag is a function of
/// `key` and `message`, known as `hmac_sha256_tag`, and that the call succeeds:
/// `new_from_slice` of `Hmac` takes a key of any length.
#[verifier::external_body]
fn hmac_sha256(key: &[u8], message: &[u8]) -> (r: Result<[u8; 32], hmac::digest::InvalidLength>)
    ensures
        r is Ok,
        r matches Ok(tag) ==> tag@ == hmac_sha256_tag(key@, message@),
{
    let mut mac = hmac::Hmac::<sha2::Sha256>::new_from_slice(key)?;
    mac.update(message);
    Ok(mac.finalize().into_bytes().into())
}

/// The `Content-MD5` value of a body: the base64 text of its MD5 digest.
pub open spec fn content_md5_text(body: Seq<char>) -> Seq<char> {
    base64_text(md5_digest(vstd::utf8::encode_utf8(body)))
}

/// The key bytes that a base64 secret stands for, or the reason why it cannot
/// be used.
pub open spec fn secret_key_bytes(secret_key: Seq<char>) -> Result<Seq<u8>, SigningError> {
    match base64_bytes(secret_key) {
        None => Err(SigningError::InvalidSecretKeyEncoding),
        Some(bytes) => if bytes.len() == 0 {
            Err(SigningError::InvalidSecretKeyLength)
        } else {
            Ok(bytes)
        },
    }
}

/// The signature of `message` under `key`: the base64 text of the HMAC-SHA256
/// tag of the message's UTF-8 bytes.
pub open spec fn signature_text(key: Seq<u8>, message: Seq<char>) -> Seq<char> {
    base64_text(hmac_sha256_tag(key, vstd::utf8::encode_utf8(message)))
}

/// Base64 of the MD5 digest of `body`.
pub fn content_md5(body: &str) -> (r: String)
    ensures
        r@ == content_md5_text(body@),
{
    let digest = md5_compute(body.as_bytes());
    base64_encode(digest.as_slice())
}

/// Decodes a base64 secret into key bytes. Fails where the text is not valid
/// base64, and where it decodes to nothing.
pub fn decode_secret_key(secret_key: &str) -> (r: Result<Vec<u8>, SigningError>)
    ensures
        match r {
            Ok(key) => secret_key_bytes(secret_key@) == Ok::<Seq<u8>, SigningError>(key@),
            Err(e) => secret_key_bytes(secret_key@) == Err::<Seq<u8>, SigningError>(e),
        },
{
    match base64_decode(secret_key) {
        Ok(key) => {
            if key.len() == 0 {
                Err(SigningError::InvalidSecretKeyLength)
            } else {
                Ok(key)
            }
        },
        Err(_) => Err(SigningError::InvalidSecretKeyEncoding),
    }
}

/// Signs `message` with `key`: base64 of the HMAC-SHA256 tag over the
/// message's bytes.
pub fn sign(key: &[u8], message: &str) -> (r: String)
    ensures
        r@ == signature_text(key@, message@),
{
    let tag = hmac_sha256(key, message.as_bytes()).unwrap();
    base64_encode(tag.as_slice())
}

} // verus!
