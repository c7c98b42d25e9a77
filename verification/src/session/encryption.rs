//! Encrypted-password login: IG accepts an RSA-encrypted password (PKCS#1
//! v1.5 padding) made with the public key returned by
//! `GET /session/encryptionKey`.

use vstd::prelude::*;

use base64::Engine;
use rsa::pkcs8::DecodePublicKey;
use rsa::rand_core::OsRng;
use rsa::{Pkcs1v15Encrypt, RsaPublicKey};

use crate::error::Error;
use crate::text::{chars_of, concat_chars, decimal_signed, fmt_i64, string_of};
use vstd::utf8::encode_utf8;

verus! {

/// What the standard base64 engine decodes a text to, or its error text.
pub uninterp spec fn base64_decoded(s: Seq<char>) -> Result<Seq<u8>, Seq<char>>;

/// What the standard base64 engine encodes bytes to.
pub uninterp spec fn base64_encoded(bytes: Seq<u8>) -> Seq<char>;

/// Whether bytes are the DER encoding of an RSA public key (SPKI).
pub uninterp spec fn der_rsa_key(der: Seq<u8>) -> bool;

/// `base64::engine::general_purpose::STANDARD.decode`: a function of the
/// text.
#[verifier::external_body]
fn base64_decode(s: &str) -> (r: Result<Vec<u8>, String>)
    ensures
        match base64_decoded(s@) {
            Ok(b) => r matches Ok(v) && v@ == b,
            Err(m) => r matches Err(t) && t@ == m,
        },
{
    base64::engine::general_purpose::STANDARD.decode(s).map_err(|e| e.to_string())
}

/// `base64::engine::general_purpose::STANDARD.encode`: a function of the
/// bytes.
#[verifier::external_body]
fn base64_encode(bytes: &[u8]) -> (r: String)
    ensures
        r@ == base64_encoded(bytes@),
{
    base64::engine::general_purpose::STANDARD.encode(bytes)
}

/// Whether `c` is a PKCS#1 v1.5 encryption of `msg` under the RSA public
/// key whose DER encoding is `der`: a relation, since the padding is random
/// and many ciphertexts encrypt one message.
pub uninterp spec fn pkcs1v15_encrypts(der: Seq<u8>, msg: Seq<u8>, c: Seq<u8>) -> bool;

/// An RSA public key, with the DER bytes it was read from.
pub struct RsaKey {
    key: RsaPublicKey,
    der: Ghost<Seq<u8>>,
}

impl RsaKey {
    /// The DER bytes the key was read from.
    pub closed spec fn der(&self) -> Seq<u8> {
        self.der@
    }
}

/// `RsaPublicKey::from_public_key_der`: succeeds exactly on the DER
/// encoding of an RSA public key, and the key remembers those bytes.  The
/// error's text is not stated.
#[verifier::external_body]
fn rsa_key_from_der(der: &[u8]) -> (r: Result<RsaKey, String>)
    ensures
        r is Ok <==> der_rsa_key(der@),
        r matches Ok(k) ==> k.der() == der@,
{
    match RsaPublicKey::from_public_key_der(der) {
        Ok(key) => Ok(RsaKey { key, der: Ghost(der@) }),
        Err(e) => Err(e.to_string()),
    }
}

/// `RsaPublicKey::encrypt` with PKCS#1 v1.5 padding and the operating
/// system's random source.  The ciphertext is random; every one it gives
/// encrypts `msg` under the key.  Whether it fails, and the error's text,
/// are not stated.
#[verifier::external_body]
fn rsa_encrypt(key: &RsaKey, msg: &[u8]) -> (r: Result<Vec<u8>, String>)
    ensures
        r matches Ok(c) ==> pkcs1v15_encrypts(key.der(), msg@, c@),
{
    key.key.encrypt(&mut OsRng, Pkcs1v15Encrypt, msg).map_err(|e| e.to_string())
}

/// The text that is encrypted: the password, `|`, and the server's
/// millisecond timestamp.
pub fn password_plaintext(password: &str, time_stamp: i64) -> (r: String)
    ensures
        r@ == password@ + "|"@ + decimal_signed(time_stamp as int),
{
    let a = concat_chars(&chars_of(password), &chars_of("|"));
    string_of(&concat_chars(&a, &fmt_i64(time_stamp)))
}

/// Encrypt the password with IG's published RSA public key.
///
/// `key_b64` is the base64 DER (SPKI) key of the encryption-key response;
/// `time_stamp` its millisecond timestamp.  The text
/// [`password_plaintext`] makes of the two is encrypted, and the result is
/// the base64 of the ciphertext.  An undecodable key text, bytes that are
/// not an RSA key, or a failed encryption give [`Error::Auth`].
pub fn encrypt_password(password: &str, key_b64: &str, time_stamp: i64) -> (r: Result<
    String,
    Error,
>)
    ensures
        base64_decoded(key_b64@) matches Err(m) ==> (r matches Err(e) && e matches Error::Auth(t)
            && t@ == "invalid base64 in encryption key: "@ + m),
        base64_decoded(key_b64@) matches Ok(der) && !der_rsa_key(der) ==> (r matches Err(e)
            && e is Auth),
        r matches Err(e) ==> e is Auth,
        r matches Ok(s) ==> (base64_decoded(key_b64@) matches Ok(der) && exists|c: Seq<u8>|
            s@ == base64_encoded(c) && pkcs1v15_encrypts(
                der,
                encode_utf8(password@ + "|"@ + decimal_signed(time_stamp as int)),
                c,
            )),
{
    let der = match base64_decode(key_b64) {
        Ok(d) => d,
        Err(m) => {
            let t = concat_chars(&chars_of("invalid base64 in encryption key: "), &chars_of(m.as_str()));
            return Err(Error::Auth(string_of(&t)));
        },
    };
    let key = match rsa_key_from_der(der.as_slice()) {
        Ok(k) => k,
        Err(m) => {
            let t = concat_chars(&chars_of("invalid RSA public key: "), &chars_of(m.as_str()));
            return Err(Error::Auth(string_of(&t)));
        },
    };
    let plaintext = password_plaintext(password, time_stamp);
    match rsa_encrypt(&key, plaintext.as_str().as_bytes()) {
        Ok(c) => {
            let s = base64_encode(c.as_slice());
            assert(s@ == base64_encoded(c@));
            Ok(s)
        },
        Err(m) => {
            let t = concat_chars(&chars_of("RSA encryption failed: "), &chars_of(m.as_str()));
            Err(Error::Auth(string_of(&t)))
        },
    }
}

} // verus!
