//! The cryptographic primitives the core relies on, and the signing key.
//!
//! The primitives themselves (a keyed MAC, a salted memory-hard password
//! hash, operating-system randomness, constant-time comparison) come from
//! outside crates and are reached only through the trusted declarations
//! below. Everything layered on top of them is verified.

use vstd::prelude::*;

use argon2::password_hash::{PasswordHash, PasswordHasher, PasswordVerifier, SaltString};
use argon2::Argon2;
use hmac::{Hmac, Mac};
use sha2::Sha256;
use subtle::ConstantTimeEq;

use crate::errors::KeyError;

verus! {

/// The HMAC-SHA-256 tag over `data` under `key`. The tag is a pure function
/// of the key and the data; its value is not stated here.
pub uninterp spec fn mac_of(key: Seq<u8>, data: Seq<u8>) -> Seq<u8>;

/// Whether `password` matches the salted password-hash record `rec`
/// (a PHC-format string, as bytes). A pure function of the two arguments:
/// the recomputation uses only the salt and parameters embedded in `rec`.
pub uninterp spec fn phc_matches(password: Seq<u8>, rec: Seq<u8>) -> bool;

/// A MAC tag is 32 bytes long.
pub const TAG_LEN: usize = 32;

/// The shortest secret accepted as a signing key.
pub const MIN_KEY_LEN: usize = 32;

/// Relies on `hmac::Hmac<sha2::Sha256>`: the tag depends on the key and the
/// data alone, and is always 32 bytes (the SHA-256 output size). HMAC
/// accepts keys of any length (long keys are first hashed), so the
/// constructor cannot fail.
#[verifier::external_body]
pub(crate) fn hmac_sha256(key: &Vec<u8>, data: &Vec<u8>) -> (r: Vec<u8>)
    ensures
        r@ == mac_of(key@, data@),
        r@.len() == TAG_LEN,
{
    let mut mac = <Hmac<Sha256> as Mac>::new_from_slice(key.as_slice()).unwrap();
    mac.update(data.as_slice());
    mac.finalize().into_bytes().to_vec()
}

/// Relies on `subtle::ConstantTimeEq` for byte slices: the result is `true`
/// exactly when the two slices have the same length and contents, and the
/// comparison takes time independent of where they first differ.
#[verifier::external_body]
pub(crate) fn ct_bytes_eq(a: &Vec<u8>, b: &Vec<u8>) -> (r: bool)
    ensures
        r == (a@ == b@),
{
    bool::from(a.as_slice().ct_eq(b.as_slice()))
}

/// Relies on `getrandom::getrandom`: on success the buffer is filled with
/// `n` bytes from the operating system's randomness source. Nothing is
/// stated about the bytes themselves.
#[verifier::external_body]
pub(crate) fn os_random_bytes(n: usize) -> (r: Option<Vec<u8>>)
    ensures
        r is Some ==> r->0@.len() == n,
{
    let mut buf = vec![0u8; n];
    match getrandom::getrandom(&mut buf) {
        Ok(()) => Some(buf),
        Err(_) => None,
    }
}

/// Relies on `argon2::Argon2::hash_password` (default Argon2id parameters)
/// and on `PasswordVerifier::verify_password`: verification recomputes the
/// hash from the salt and parameters embedded in the returned PHC record,
/// so a record produced here matches the password it was produced from.
#[verifier::external_body]
pub(crate) fn argon2_hash(password: &Vec<u8>, salt: &Vec<u8>) -> (r: Option<Vec<u8>>)
    requires
        salt@.len() == 16,
    ensures
        r is Some ==> phc_matches(password@, r->0@),
{
    let salt_string = match SaltString::encode_b64(salt.as_slice()) {
        Ok(s) => s,
        Err(_) => return None,
    };
    match Argon2::default().hash_password(password.as_slice(), &salt_string) {
        Ok(h) => Some(h.to_string().into_bytes()),
        Err(_) => None,
    }
}

/// Relies on `argon2::Argon2::verify_password`: it reports a match exactly
/// when recomputing the hash with the salt and parameters embedded in `rec`
/// reproduces the stored output; a record that does not parse as a PHC
/// string never matches. The comparison of hash outputs is constant-time.
#[verifier::external_body]
pub(crate) fn argon2_verify(password: &Vec<u8>, rec: &Vec<u8>) -> (r: bool)
    ensures
        r == phc_matches(password@, rec@),
{
    let rec_str = match core::str::from_utf8(rec.as_slice()) {
        Ok(s) => s,
        Err(_) => return false,
    };
    let parsed = match PasswordHash::new(rec_str) {
        Ok(h) => h,
        Err(_) => return false,
    };
    Argon2::default().verify_password(password.as_slice(), &parsed).is_ok()
}

/// The process-wide symmetric signing key. Constructed once from an
/// externally supplied secret; rejected at construction when the secret is
/// shorter than `MIN_KEY_LEN` bytes.
pub struct SigningKey {
    key: Vec<u8>,
}

impl View for SigningKey {
    type V = Seq<u8>;

    closed spec fn view(&self) -> Seq<u8> {
        self.key@
    }
}

impl SigningKey {
    /// A constructed key always meets the minimum length.
    pub open spec fn wf(&self) -> bool {
        self@.len() >= MIN_KEY_LEN
    }

    /// Accept a secret as the signing key, or reject it as too short.
    pub fn new(secret: Vec<u8>) -> (r: Result<SigningKey, KeyError>)
        ensures
            r is Ok <==> secret@.len() >= MIN_KEY_LEN,
            r is Ok ==> r->Ok_0@ == secret@ && r->Ok_0.wf(),
            r is Err ==> r->Err_0 == KeyError::TooShort,
    {
        if secret.len() >= MIN_KEY_LEN {
            Ok(SigningKey { key: secret })
        } else {
            Err(KeyError::TooShort)
        }
    }

    /// The MAC tag over `payload` under this key.
    pub fn sign(&self, payload: &Vec<u8>) -> (r: Vec<u8>)
        ensures
            r@ == mac_of(self@, payload@),
            r@.len() == TAG_LEN,
    {
        hmac_sha256(&self.key, payload)
    }

    /// Whether `tag` is exactly the MAC tag over `payload` under this key.
    /// The comparison is constant-time.
    pub fn verify(&self, payload: &Vec<u8>, tag: &Vec<u8>) -> (r: bool)
        ensures
            r == (tag@ == mac_of(self@, payload@)),
    {
        let expected = self.sign(payload);
        ct_bytes_eq(tag, &expected)
    }
}

} // verus!
