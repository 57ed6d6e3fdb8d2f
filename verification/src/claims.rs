//! The typed claim set carried inside every token.
//!
//! On the wire a token holds five string-valued claims: `sub` (a constant
//! subject marker), `id`, `email`, `role` and `exp`. Inside the library the
//! claim set is a typed record; rendering to and parsing from the five
//! strings happens only at the signing boundary, and the two directions are
//! proved inverse to each other.

use vstd::prelude::*;

use crate::numstr::{dec_seq, parse_dec};
use crate::numstr::{parse_u64_dec, u64_to_dec};
use crate::role::Role;
use crate::text::str_eq;

verus! {

/// The subject marker every issued token carries.
pub open spec fn subject_seq() -> Seq<char> {
    "someone"@
}

/// The subject marker as a string.
pub fn subject_str() -> (r: &'static str)
    ensures
        r@ == subject_seq(),
{
    "someone"
}

/// The typed claim set embedded in a token.
#[derive(Debug)]
pub struct Claims {
    /// The id of the user the token speaks for.
    pub id: u64,
    /// The user's email.
    pub email: String,
    /// The user's role.
    pub role: Role,
    /// Absolute expiry, in Unix seconds.
    pub exp: u64,
}

/// The mathematical value of a claim set.
pub ghost struct ClaimsView {
    pub id: u64,
    pub email: Seq<char>,
    pub role: Role,
    pub exp: u64,
}

impl View for Claims {
    type V = ClaimsView;

    open spec fn view(&self) -> ClaimsView {
        ClaimsView { id: self.id, email: self.email@, role: self.role, exp: self.exp }
    }
}

/// The five claim values of a decoded token, each present or absent.
///
/// A token whose claim map misses any of the five keys is malformed; the
/// absence is recorded here rather than defaulted away.
pub struct RawClaims {
    pub sub: Option<String>,
    pub id: Option<String>,
    pub email: Option<String>,
    pub role: Option<String>,
    pub exp: Option<String>,
}

/// The mathematical value of a raw claim map.
pub ghost struct RawClaimsView {
    pub sub: Option<Seq<char>>,
    pub id: Option<Seq<char>>,
    pub email: Option<Seq<char>>,
    pub role: Option<Seq<char>>,
    pub exp: Option<Seq<char>>,
}

/// The view of one optional claim value.
pub open spec fn opt_view(o: Option<String>) -> Option<Seq<char>> {
    match o {
        Some(s) => Some(s@),
        None => None,
    }
}

impl View for RawClaims {
    type V = RawClaimsView;

    open spec fn view(&self) -> RawClaimsView {
        RawClaimsView {
            sub: opt_view(self.sub),
            id: opt_view(self.id),
            email: opt_view(self.email),
            role: opt_view(self.role),
            exp: opt_view(self.exp),
        }
    }
}

/// The five claim strings a typed claim set is rendered to before signing.
pub open spec fn claims_encode(c: ClaimsView) -> RawClaimsView {
    RawClaimsView {
        sub: Some(subject_seq()),
        id: Some(dec_seq(c.id as nat)),
        email: Some(c.email),
        role: Some(dec_seq(c.role.spec_code() as nat)),
        exp: Some(dec_seq(c.exp as nat)),
    }
}

/// The typed claim set a raw claim map denotes: all five claims must be
/// present, the subject must match, and id, role and expiry must parse.
pub open spec fn claims_decode(r: RawClaimsView) -> Option<ClaimsView> {
    match (r.sub, r.id, r.email, r.role, r.exp) {
        (Some(sub), Some(id), Some(email), Some(role), Some(exp)) => {
            if sub == subject_seq() {
                match (parse_dec(id), parse_dec(role), parse_dec(exp)) {
                    (Some(id_v), Some(role_v), Some(exp_v)) => {
                        match Role::spec_from_code(role_v) {
                            Some(ro) => Some(
                                ClaimsView { id: id_v, email: email, role: ro, exp: exp_v },
                            ),
                            None => None,
                        }
                    },
                    _ => None,
                }
            } else {
                None
            }
        },
        _ => None,
    }
}

/// Decoding inverts encoding: every typed claim set survives the round trip
/// through its five claim strings unchanged.
pub proof fn lemma_claims_encode_decode(c: ClaimsView)
    ensures
        claims_decode(claims_encode(c)) == Some(c),
{
    crate::numstr::lemma_dec_seq_value(c.id as nat);
    crate::numstr::lemma_dec_seq_value(c.role.spec_code() as nat);
    crate::numstr::lemma_dec_seq_value(c.exp as nat);
    c.role.lemma_code_round_trip();
}

impl Claims {
    /// Parses a decoded claim map into a typed claim set.
    pub fn from_raw(raw: &RawClaims) -> (r: Option<Claims>)
        ensures
            r matches Some(c) ==> claims_decode(raw@) == Some(c@),
            r is None ==> claims_decode(raw@) is None,
    {
        let sub = match &raw.sub {
            Some(s) => s,
            None => {
                return None;
            },
        };
        if !str_eq(sub.as_str(), subject_str()) {
            return None;
        }
        let id_s = match &raw.id {
            Some(s) => s,
            None => {
                return None;
            },
        };
        let email = match &raw.email {
            Some(e) => e.clone(),
            None => {
                return None;
            },
        };
        let role_s = match &raw.role {
            Some(s) => s,
            None => {
                return None;
            },
        };
        let exp_s = match &raw.exp {
            Some(s) => s,
            None => {
                return None;
            },
        };
        let id = match parse_u64_dec(id_s.as_str()) {
            Some(v) => v,
            None => {
                return None;
            },
        };
        let role_code = match parse_u64_dec(role_s.as_str()) {
            Some(v) => v,
            None => {
                return None;
            },
        };
        let role = match Role::from_code(role_code) {
            Some(ro) => ro,
            None => {
                return None;
            },
        };
        let exp = match parse_u64_dec(exp_s.as_str()) {
            Some(v) => v,
            None => {
                return None;
            },
        };
        Some(Claims { id, email, role, exp })
    }

    /// The decimal rendering of the user id claim.
    pub fn id_string(&self) -> (r: String)
        ensures
            r@ == dec_seq(self.id as nat),
    {
        u64_to_dec(self.id)
    }

    /// The decimal rendering of the role claim.
    pub fn role_string(&self) -> (r: String)
        ensures
            r@ == dec_seq(self.role.spec_code() as nat),
    {
        u64_to_dec(self.role.code())
    }

    /// The decimal rendering of the expiry claim.
    pub fn exp_string(&self) -> (r: String)
        ensures
            r@ == dec_seq(self.exp as nat),
    {
        u64_to_dec(self.exp)
    }
}

} // verus!
