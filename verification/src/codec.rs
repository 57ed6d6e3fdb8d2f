//! The token codec: signing a claim set into an opaque bearer string and
//! verifying such a string back into a claim set.
//!
//! The signature is HMAC-SHA256 over the canonical JWT encoding of the five
//! claim strings, produced and checked by the outside signer. The codec
//! carries no encryption: claims are visible to anyone, and integrity rests
//! on the signature alone, so two independent keys (access and refresh)
//! are the sole mechanism keeping the two token audiences apart.

use std::collections::BTreeMap;

use hmac::Hmac;
use hmac::Mac;
use jwt::SignWithKey;
use jwt::VerifyWithKey;
use sha2::Sha256;

use vstd::prelude::*;

use crate::claims::{claims_decode, claims_encode, lemma_claims_encode_decode, subject_seq,
    subject_str, Claims, ClaimsView, RawClaims, RawClaimsView};
use crate::errors::CodecError;
use crate::numstr::dec_seq;

verus! {

/// The signed bearer token the outside signer produces from a key and the
/// five claim strings `sub`, `id`, `email`, `role` and `exp`.
pub uninterp spec fn token_of(
    key: Seq<u8>,
    sub: Seq<char>,
    id: Seq<char>,
    email: Seq<char>,
    role: Seq<char>,
    exp: Seq<char>,
) -> Seq<char>;

/// The token a typed claim set is signed to under a key.
pub open spec fn claims_token(key: Seq<u8>, c: ClaimsView) -> Seq<char> {
    token_of(
        key,
        subject_seq(),
        dec_seq(c.id as nat),
        c.email,
        dec_seq(c.role.spec_code() as nat),
        dec_seq(c.exp as nat),
    )
}

/// Relies on `jwt::SignWithKey` for `Hmac<Sha256>`: the token it returns is
/// HMAC-SHA256 over the base64 JWT encoding of the claim map, hence a
/// function of the key and the five claim strings alone. Signing cannot
/// fail here: the HMAC constructor accepts keys of every length without an
/// error branch, the header is built from the key's own algorithm so the
/// two always match, and the JSON encoding of a header struct and a map of
/// string slices cannot fail — so the call always returns a token.
#[verifier::external_body]
fn jwt_sign_raw(key: &[u8], sub: &str, id: &str, email: &str, role: &str, exp: &str) -> (r: Option<
    String,
>)
    ensures
        r is Some,
        r matches Some(t) ==> t@ == token_of(key@, sub@, id@, email@, role@, exp@),
{
    let mac: Hmac<Sha256> = match Hmac::new_from_slice(key) {
        Ok(m) => m,
        Err(_) => return None,
    };
    let mut claims: BTreeMap<&str, &str> = BTreeMap::new();
    claims.insert("sub", sub);
    claims.insert("id", id);
    claims.insert("email", email);
    claims.insert("role", role);
    claims.insert("exp", exp);
    claims.sign_with_key(&mac).ok()
}

/// The full outcome of the outside verifier on a token string and a key:
/// either the claim map the token carries or the failure it is rejected
/// with. Verification reads nothing but its two arguments, so the outcome
/// is a function of them alone; what it is on a given pair is settled only
/// for tokens the signer produced, by the clauses below.
pub uninterp spec fn raw_verify_of(token: Seq<char>, key: Seq<u8>) -> Result<
    RawClaimsView,
    CodecError,
>;

/// A raw verification result by value.
pub open spec fn raw_result_view(r: Result<RawClaims, CodecError>) -> Result<
    RawClaimsView,
    CodecError,
> {
    match r {
        Ok(c) => Ok(c@),
        Err(e) => Err(e),
    }
}

/// What verification returns for a token the signer produced under the
/// verifying key itself: the verified claim map holds exactly the claim
/// strings that were signed.
pub open spec fn verify_returns_signed(
    token: Seq<char>,
    key: Seq<u8>,
    r: Result<RawClaims, CodecError>,
) -> bool {
    forall|s: Seq<char>, i: Seq<char>, e: Seq<char>, ro: Seq<char>, x: Seq<char>|
        token == #[trigger] token_of(key, s, i, e, ro, x) ==> {
            &&& r matches Ok(c)
            &&& c.sub matches Some(v1)
            &&& v1@ == s
            &&& c.id matches Some(v2)
            &&& v2@ == i
            &&& c.email matches Some(v3)
            &&& v3@ == e
            &&& c.role matches Some(v4)
            &&& v4@ == ro
            &&& c.exp matches Some(v5)
            &&& v5@ == x
        }
}

/// What verification returns for a token the signer produced under any
/// other key: the signature comparison fails.
pub open spec fn verify_rejects_foreign(
    token: Seq<char>,
    key: Seq<u8>,
    r: Result<RawClaims, CodecError>,
) -> bool {
    forall|k2: Seq<u8>, s: Seq<char>, i: Seq<char>, e: Seq<char>, ro: Seq<char>, x: Seq<char>|
        token == #[trigger] token_of(k2, s, i, e, ro, x) && k2 != key ==> {
            &&& r matches Err(err)
            &&& err == CodecError::InvalidSignature
        }
}

/// Relies on `jwt::VerifyWithKey` for `Hmac<Sha256>`: verification is
/// deterministic in the token and the key (its outcome is the named
/// [`raw_verify_of`]); a token produced by the signer verifies under its
/// signing key and yields the same claim strings back, and fails the
/// signature comparison under every other key (the hmac backend reports
/// that as a MAC error). This treats the HMAC-SHA256 signature as
/// collision-free across keys and claim strings.
#[verifier::external_body]
fn jwt_verify_raw(token: &str, key: &[u8]) -> (r: Result<RawClaims, CodecError>)
    ensures
        raw_result_view(r) == raw_verify_of(token@, key@),
        verify_returns_signed(token@, key@, r),
        verify_rejects_foreign(token@, key@, r),
{
    let mac: Hmac<Sha256> = Hmac::new_from_slice(key).map_err(|_| CodecError::Malformed)?;
    let m: BTreeMap<String, String> = match token.verify_with_key(&mac) {
        Ok(m) => m,
        Err(jwt::Error::InvalidSignature) | Err(jwt::Error::RustCryptoMac(_)) => {
            return Err(CodecError::InvalidSignature);
        },
        Err(_) => return Err(CodecError::Malformed),
    };
    let (sub, id) = (m.get("sub").cloned(), m.get("id").cloned());
    let (email, role) = (m.get("email").cloned(), m.get("role").cloned());
    Ok(RawClaims { sub, id, email, role, exp: m.get("exp").cloned() })
}

/// The codec's whole verdict on a token string and a key: the claim map
/// the outside verifier yields is decoded into a typed claim set, and one
/// that is incomplete or ill-formed — a missing claim, a foreign subject,
/// a non-numeric id, role or expiry — is `Malformed`.
pub open spec fn verify_spec(token: Seq<char>, key: Seq<u8>) -> Result<ClaimsView, CodecError> {
    match raw_verify_of(token, key) {
        Ok(raw) => match claims_decode(raw) {
            Some(c) => Ok(c),
            None => Err(CodecError::Malformed),
        },
        Err(e) => Err(e),
    }
}

/// A verification result by value.
pub open spec fn claims_result_view(r: Result<Claims, CodecError>) -> Result<
    ClaimsView,
    CodecError,
> {
    match r {
        Ok(c) => Ok(c@),
        Err(e) => Err(e),
    }
}

/// Signs a claim set into a bearer token under a key.
///
/// Signing is deterministic and total: every claim set yields a token.
pub fn sign_claims(claims: &Claims, key: &[u8]) -> (r: Option<String>)
    ensures
        r is Some,
        r matches Some(t) ==> t@ == claims_token(key@, claims@),
{
    let id_s = claims.id_string();
    let role_s = claims.role_string();
    let exp_s = claims.exp_string();
    jwt_sign_raw(
        key,
        subject_str(),
        id_s.as_str(),
        claims.email.as_str(),
        role_s.as_str(),
        exp_s.as_str(),
    )
}

/// Verifies a bearer token under a key and decodes its claim set.
///
/// The verdict is exactly [`verify_spec`] — pure and stateless, the same
/// on every call with the same token and key, and `Malformed` whenever the
/// verified claim map is not a complete, well-formed claim set. A token
/// signed for a claim set under this key decodes back to exactly that
/// claim set; one signed under any other key fails with
/// `InvalidSignature`.
pub fn verify_claims(token: &str, key: &[u8]) -> (r: Result<Claims, CodecError>)
    ensures
        claims_result_view(r) == verify_spec(token@, key@),
        forall|c: ClaimsView|
            token@ == #[trigger] claims_token(key@, c) ==> (r matches Ok(d) && d@ == c),
        forall|k2: Seq<u8>, c: ClaimsView|
            token@ == #[trigger] claims_token(k2, c) && k2 != key@ ==> (r matches Err(err)
                && err == CodecError::InvalidSignature),
{
    let raw = match jwt_verify_raw(token, key) {
        Ok(raw) => raw,
        Err(err) => {
            return Err(err);
        },
    };
    match Claims::from_raw(&raw) {
        Some(c) => {
            proof {
                assert forall|cv: ClaimsView| token@ == claims_token(key@, cv) implies c@
                    == cv by {
                    assert(raw@ == claims_encode(cv));
                    lemma_claims_encode_decode(cv);
                };
            }
            Ok(c)
        },
        None => {
            proof {
                assert forall|cv: ClaimsView| token@ != claims_token(key@, cv) by {
                    if token@ == claims_token(key@, cv) {
                        assert(raw@ == claims_encode(cv));
                        lemma_claims_encode_decode(cv);
                    }
                };
            }
            Err(CodecError::Malformed)
        },
    }
}

} // verus!
