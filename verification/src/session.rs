//! Tamper-evident session tokens carried as cookie values.
//!
//! A token is a payload of two fixed-width fields (user id, expiry), hex
//! encoded, followed by a separator and the hex-encoded MAC tag over the
//! payload bytes. Verification is a fixed pipeline: structure first, then
//! the signature, then the expiry; no field is trusted before the tag over
//! the exact transmitted payload bytes has been checked.

use vstd::prelude::*;

use crate::codec::{be8, lemma_be8_inverse, lemma_be8_roundtrip, push_u64_be, read_u64_be, u64_from_be};
use crate::crypto::{mac_of, SigningKey, TAG_LEN};
use crate::errors::SessionError;
use crate::hexcode::{all_hex, hex_decode, hex_encode, hex_of, lemma_hex_of_unhex, lemma_hex_roundtrip, unhex_of};
use crate::user::User;

verus! {

/// Separator between the payload segment and the tag segment (`.`).
pub const SEP: u8 = 0x2e;

/// How long a freshly minted token stays valid, in seconds.
pub const TOKEN_TTL_SECONDS: u64 = 86400;

/// Length of a serialized token: hex payload, separator, hex tag.
pub const TOKEN_LEN: usize = 97;

/// The name under which the token travels as a cookie (`session`).
pub open spec fn session_cookie_name() -> Seq<u8> {
    seq![0x73u8, 0x65u8, 0x73u8, 0x73u8, 0x69u8, 0x6fu8, 0x6eu8]
}

/// An authenticated session: who, and until when.
#[derive(Clone, Copy, Debug, PartialEq, Eq, Structural)]
pub struct SessionToken {
    /// Identifier of the user the session belongs to.
    pub user_id: u64,
    /// Second after which the token is no longer accepted.
    pub expiry: u64,
}

/// A cookie to be handed to the client. The rendered cookie always carries
/// `HttpOnly; Secure; SameSite=Strict; Path=/` besides these fields.
pub struct CookieSpec {
    /// Cookie name.
    pub name: Vec<u8>,
    /// Cookie value: a serialized token, or empty for the logout sentinel.
    pub value: Vec<u8>,
    /// `Max-Age` in seconds; zero instructs the client to delete the cookie.
    pub max_age: u64,
}

impl SessionToken {
    /// The canonical payload bytes: user id, then expiry, big-endian.
    pub open spec fn payload(&self) -> Seq<u8> {
        be8(self.user_id) + be8(self.expiry)
    }

    /// The canonical serialized form under `key`: hex payload, separator,
    /// hex tag over exactly the payload bytes.
    pub open spec fn token_bytes(&self, key: Seq<u8>) -> Seq<u8> {
        hex_of(self.payload()) + seq![SEP] + hex_of(mac_of(key, self.payload()))
    }

    /// Mint a token for `user`, valid from `now` for the configured TTL.
    pub fn create(user: &User, now: u64) -> (tok: SessionToken)
        requires
            now + TOKEN_TTL_SECONDS <= u64::MAX,
        ensures
            tok.user_id == user.id,
            tok.expiry == now + TOKEN_TTL_SECONDS,
    {
        SessionToken { user_id: user.id, expiry: now + TOKEN_TTL_SECONDS }
    }

    /// The payload bytes, as a vector.
    fn payload_bytes(&self) -> (r: Vec<u8>)
        ensures
            r@ == self.payload(),
    {
        let mut p: Vec<u8> = Vec::new();
        push_u64_be(&mut p, self.user_id);
        push_u64_be(&mut p, self.expiry);
        proof {
            assert(p@ =~= self.payload());
        }
        p
    }

    /// Serialize the token under `key` into its one canonical cookie value.
    pub fn serialize(&self, key: &SigningKey) -> (r: Vec<u8>)
        ensures
            r@ == self.token_bytes(key@),
    {
        let p = self.payload_bytes();
        let tag = key.sign(&p);
        let mut out = hex_encode(&p);
        out.push(SEP);
        let mut tag_hex = hex_encode(&tag);
        out.append(&mut tag_hex);
        proof {
            assert(out@ =~= self.token_bytes(key@));
        }
        out
    }

    /// Structural well-formedness of a candidate cookie value: exactly two
    /// all-hex segments of the right lengths around one separator.
    pub open spec fn structure_ok(v: Seq<u8>) -> bool {
        &&& v.len() == TOKEN_LEN
        &&& all_hex(v.subrange(0, 32))
        &&& v[32] == SEP
        &&& all_hex(v.subrange(33, 97))
    }

    /// What `parse_and_verify` returns, as a function of the value, the key
    /// and the clock: structure is checked first, then the tag over the
    /// exact payload bytes, then the expiry.
    pub open spec fn parse_spec(v: Seq<u8>, key: Seq<u8>, now: u64) -> Result<
        SessionToken,
        SessionError,
    > {
        if !Self::structure_ok(v) {
            Err(SessionError::Malformed)
        } else {
            let p = unhex_of(v.subrange(0, 32));
            let t = unhex_of(v.subrange(33, 97));
            if t != mac_of(key, p) {
                Err(SessionError::BadSignature)
            } else {
                let tok = SessionToken {
                    user_id: u64_from_be(p.subrange(0, 8)),
                    expiry: u64_from_be(p.subrange(8, 16)),
                };
                if tok.expiry < now {
                    Err(SessionError::Expired)
                } else {
                    Ok(tok)
                }
            }
        }
    }

    /// Parse a candidate cookie value and verify it under `key` at time
    /// `now`. The result is exactly `parse_spec`.
    pub fn parse_and_verify(value: &Vec<u8>, key: &SigningKey, now: u64) -> (r: Result<
        SessionToken,
        SessionError,
    >)
        ensures
            r == Self::parse_spec(value@, key@, now),
    {
        if value.len() != TOKEN_LEN {
            return Err(SessionError::Malformed);
        }
        if value[32] != SEP {
            return Err(SessionError::Malformed);
        }
        let payload_seg = copy_range(value, 0, 32);
        let tag_seg = copy_range(value, 33, 97);
        let p = match hex_decode(&payload_seg) {
            Some(p) => p,
            None => {
                return Err(SessionError::Malformed);
            },
        };
        let t = match hex_decode(&tag_seg) {
            Some(t) => t,
            None => {
                return Err(SessionError::Malformed);
            },
        };
        if !key.verify(&p, &t) {
            return Err(SessionError::BadSignature);
        }
        let user_id = read_u64_be(&p, 0);
        let expiry = read_u64_be(&p, 8);
        let tok = SessionToken { user_id, expiry };
        if expiry < now {
            Err(SessionError::Expired)
        } else {
            Ok(tok)
        }
    }
}

/// A copy of `v[from .. to]`.
fn copy_range(v: &Vec<u8>, from: usize, to: usize) -> (r: Vec<u8>)
    requires
        from <= to,
        to <= v.len(),
    ensures
        r@ == v@.subrange(from as int, to as int),
{
    let mut r: Vec<u8> = Vec::new();
    let mut i: usize = from;
    while i < to
        invariant
            from <= i <= to,
            to <= v.len(),
            r@ == v@.subrange(from as int, i as int),
        decreases to - i,
    {
        r.push(v[i]);
        proof {
            assert(r@ =~= v@.subrange(from as int, i + 1));
        }
        i = i + 1;
    }
    r
}

/// The cookie carrying a freshly minted token: the canonical value, with a
/// lifetime matching the token's.
pub fn cookie_login(tok: &SessionToken, key: &SigningKey) -> (c: CookieSpec)
    ensures
        c.name@ == session_cookie_name(),
        c.value@ == tok.token_bytes(key@),
        c.max_age == TOKEN_TTL_SECONDS,
{
    let mut name: Vec<u8> = Vec::new();
    name.push(0x73);
    name.push(0x65);
    name.push(0x73);
    name.push(0x73);
    name.push(0x69);
    name.push(0x6f);
    name.push(0x6e);
    proof {
        assert(name@ =~= session_cookie_name());
    }
    CookieSpec { name, value: tok.serialize(key), max_age: TOKEN_TTL_SECONDS }
}

/// The logout sentinel: same name, empty value, zero lifetime, so the
/// client deletes the cookie. Its value never verifies: it is not even
/// structurally well formed.
pub fn cookie_logout() -> (c: CookieSpec)
    ensures
        c.name@ == session_cookie_name(),
        c.value@ == Seq::<u8>::empty(),
        c.max_age == 0,
{
    let mut name: Vec<u8> = Vec::new();
    name.push(0x73);
    name.push(0x65);
    name.push(0x73);
    name.push(0x73);
    name.push(0x69);
    name.push(0x6f);
    name.push(0x6e);
    proof {
        assert(name@ =~= session_cookie_name());
    }
    let value: Vec<u8> = Vec::new();
    CookieSpec { name, value, max_age: 0 }
}

/// Round trip: a token serialized under a key is accepted by verification
/// under the same key at any time not past its expiry, and yields the very
/// same token. (Conditional on the tag having the MAC's output length,
/// which every tag produced by `SigningKey::sign` has.)
pub proof fn lemma_round_trip(tok: SessionToken, key: Seq<u8>, now: u64)
    requires
        now <= tok.expiry,
    ensures
        mac_of(key, tok.payload()).len() == TAG_LEN ==> SessionToken::parse_spec(
            tok.token_bytes(key),
            key,
            now,
        ) == Ok::<SessionToken, SessionError>(tok),
{
    if mac_of(key, tok.payload()).len() == TAG_LEN {
        let p = tok.payload();
        let m = mac_of(key, p);
        lemma_be8_roundtrip(tok.user_id);
        lemma_be8_roundtrip(tok.expiry);
        lemma_hex_roundtrip(p);
        lemma_hex_roundtrip(m);
        let v = tok.token_bytes(key);
        assert(v.subrange(0, 32) =~= hex_of(p));
        assert(v.subrange(33, 97) =~= hex_of(m));
        assert(v[32] == SEP);
        assert(SessionToken::structure_ok(v));
        assert(unhex_of(v.subrange(0, 32)) == p);
        assert(unhex_of(v.subrange(33, 97)) == m);
        assert(p.subrange(0, 8) =~= be8(tok.user_id));
        assert(p.subrange(8, 16) =~= be8(tok.expiry));
    }
}

/// Soundness of acceptance: any value that verifies to a token is that
/// token's one canonical serialization. A tampered value therefore never
/// verifies to the token it was derived from.
pub proof fn lemma_accepted_value_is_canonical(
    v: Seq<u8>,
    key: Seq<u8>,
    now: u64,
    tok: SessionToken,
)
    ensures
        SessionToken::parse_spec(v, key, now) == Ok::<SessionToken, SessionError>(tok) ==> v
            == tok.token_bytes(key),
{
    if SessionToken::parse_spec(v, key, now) == Ok::<SessionToken, SessionError>(tok) {
        let pseg = v.subrange(0, 32);
        let tseg = v.subrange(33, 97);
        let p = unhex_of(pseg);
        let t = unhex_of(tseg);
        lemma_hex_of_unhex(pseg);
        lemma_hex_of_unhex(tseg);
        lemma_be8_inverse(p.subrange(0, 8));
        lemma_be8_inverse(p.subrange(8, 16));
        assert(tok.user_id == u64_from_be(p.subrange(0, 8)));
        assert(tok.expiry == u64_from_be(p.subrange(8, 16)));
        assert(tok.payload() =~= p);
        assert(t == mac_of(key, p));
        assert(v =~= tok.token_bytes(key));
    }
}

/// Tamper sensitivity on the tag side: with the payload segment intact, any
/// tag segment other than the canonical one is rejected — as `Malformed`
/// when it is not well formed, as `BadSignature` otherwise, never accepted.
#[verifier::rlimit(50)]
#[verifier::spinoff_prover]
pub proof fn lemma_tag_tamper(tok: SessionToken, key: Seq<u8>, tag_seg: Seq<u8>, now: u64)
    ensures
        (mac_of(key, tok.payload()).len() == TAG_LEN && tag_seg != hex_of(
            mac_of(key, tok.payload()),
        )) ==> !(SessionToken::parse_spec(
            hex_of(tok.payload()) + seq![SEP] + tag_seg,
            key,
            now,
        ) is Ok),
{
    let p = tok.payload();
    let m = mac_of(key, p);
    if m.len() == TAG_LEN && tag_seg != hex_of(m) {
        let v = hex_of(p) + seq![SEP] + tag_seg;
        lemma_hex_roundtrip(p);
        if SessionToken::structure_ok(v) {
            assert(v.subrange(0, 32) =~= hex_of(p));
            assert(v.subrange(33, 97) =~= tag_seg);
            assert(unhex_of(v.subrange(0, 32)) == p);
            if unhex_of(tag_seg) == mac_of(key, p) {
                lemma_hex_of_unhex(tag_seg);
                assert(tag_seg == hex_of(m));
                assert(false);
            }
        }
    }
}

/// Tamper sensitivity on the payload side: with the original tag kept, any
/// payload whose tag under the key differs from the original's is rejected —
/// never accepted. (A MAC collision between the two payloads is the only
/// escape, and is not a property of this encoding.)
#[verifier::rlimit(50)]
#[verifier::spinoff_prover]
pub proof fn lemma_payload_tamper(payload2: Seq<u8>, tok: SessionToken, key: Seq<u8>, now: u64)
    ensures
        (mac_of(key, tok.payload()).len() == TAG_LEN && payload2.len() == 16 && mac_of(
            key,
            payload2,
        ) != mac_of(key, tok.payload())) ==> !(SessionToken::parse_spec(
            hex_of(payload2) + seq![SEP] + hex_of(mac_of(key, tok.payload())),
            key,
            now,
        ) is Ok),
{
    let m = mac_of(key, tok.payload());
    if m.len() == TAG_LEN && payload2.len() == 16 && mac_of(key, payload2) != m {
        let v = hex_of(payload2) + seq![SEP] + hex_of(m);
        lemma_hex_roundtrip(payload2);
        lemma_hex_roundtrip(m);
        if SessionToken::structure_ok(v) {
            assert(v.subrange(0, 32) =~= hex_of(payload2));
            assert(v.subrange(33, 97) =~= hex_of(m));
            assert(unhex_of(v.subrange(0, 32)) == payload2);
            assert(unhex_of(v.subrange(33, 97)) == m);
        }
    }
}

/// Key isolation: a token serialized under one key is rejected as
/// `BadSignature` under any key whose tag over that payload differs (a MAC
/// collision between the two keys is the only escape, and is not a property
/// of this encoding).
pub proof fn lemma_key_isolation(tok: SessionToken, key_a: Seq<u8>, key_b: Seq<u8>, now: u64)
    ensures
        (mac_of(key_a, tok.payload()).len() == TAG_LEN && mac_of(key_b, tok.payload()) != mac_of(
            key_a,
            tok.payload(),
        )) ==> SessionToken::parse_spec(tok.token_bytes(key_a), key_b, now) == Err::<
            SessionToken,
            SessionError,
        >(SessionError::BadSignature),
{
    let p = tok.payload();
    let m = mac_of(key_a, p);
    if m.len() == TAG_LEN && mac_of(key_b, p) != m {
        lemma_be8_roundtrip(tok.user_id);
        lemma_be8_roundtrip(tok.expiry);
        lemma_hex_roundtrip(p);
        lemma_hex_roundtrip(m);
        let v = tok.token_bytes(key_a);
        assert(v.subrange(0, 32) =~= hex_of(p));
        assert(v.subrange(33, 97) =~= hex_of(m));
        assert(v[32] == SEP);
        assert(SessionToken::structure_ok(v));
        assert(unhex_of(v.subrange(0, 32)) == p);
        assert(unhex_of(v.subrange(33, 97)) == m);
    }
}

/// Expiry: a token whose embedded expiry lies before `now` is rejected as
/// `Expired` even under the very key that signed it.
pub proof fn lemma_expired(tok: SessionToken, key: Seq<u8>, now: u64)
    requires
        tok.expiry < now,
    ensures
        mac_of(key, tok.payload()).len() == TAG_LEN ==> SessionToken::parse_spec(
            tok.token_bytes(key),
            key,
            now,
        ) == Err::<SessionToken, SessionError>(SessionError::Expired),
{
    if mac_of(key, tok.payload()).len() == TAG_LEN {
        let p = tok.payload();
        let m = mac_of(key, p);
        lemma_be8_roundtrip(tok.user_id);
        lemma_be8_roundtrip(tok.expiry);
        lemma_hex_roundtrip(p);
        lemma_hex_roundtrip(m);
        let v = tok.token_bytes(key);
        assert(v.subrange(0, 32) =~= hex_of(p));
        assert(v.subrange(33, 97) =~= hex_of(m));
        assert(v[32] == SEP);
        assert(SessionToken::structure_ok(v));
        assert(unhex_of(v.subrange(0, 32)) == p);
        assert(unhex_of(v.subrange(33, 97)) == m);
        assert(p.subrange(0, 8) =~= be8(tok.user_id));
        assert(p.subrange(8, 16) =~= be8(tok.expiry));
    }
}

} // verus!
