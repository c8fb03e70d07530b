//! Salted one-way password hashing and constant-time verification.
//!
//! `hash` embeds a fresh random salt in the returned record, so two records
//! for the same password differ, yet each record matches that password.
//! `verify` answers only "match" or "no match": a malformed record and a
//! wrong password are indistinguishable to the caller.

use vstd::prelude::*;

use crate::crypto::{argon2_hash, argon2_verify, os_random_bytes, phc_matches};

verus! {

/// Length of the fresh salt drawn for every new record.
pub const SALT_LEN: usize = 16;

/// Hash `password` under a fresh random salt. The returned record embeds
/// the salt and the hash parameters, and matches `password`; `None` only
/// when the randomness source or the hashing primitive fails, never as a
/// statement about the password.
pub fn hash(password: &Vec<u8>) -> (r: Option<Vec<u8>>)
    ensures
        r is Some ==> phc_matches(password@, r->0@),
{
    match os_random_bytes(SALT_LEN) {
        Some(salt) => argon2_hash(password, &salt),
        None => None,
    }
}

/// Whether `password` matches the stored record `rec`, recomputed from the
/// salt and parameters embedded in `rec` and compared in constant time.
pub fn verify(password: &Vec<u8>, rec: &Vec<u8>) -> (r: bool)
    ensures
        r == phc_matches(password@, rec@),
{
    argon2_verify(password, rec)
}

} // verus!
