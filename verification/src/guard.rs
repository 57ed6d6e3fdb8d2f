//! The access guard applied at the entry of every protected operation.
//!
//! The guard verifies the presented access token, checks its expiry, and
//! checks the operation's role requirement, yielding the authenticated
//! identity on success. Every protected operation goes through this one
//! function rather than re-reading claims itself.

use vstd::prelude::*;

use crate::claims::{Claims, ClaimsView};
use crate::codec::{claims_token, verify_claims, verify_spec};
use crate::errors::GuardError;
use crate::role::{Role, RoleReq};

verus! {

/// The authenticated identity a passed guard yields to the operation.
#[derive(Clone, Copy, Debug, PartialEq, Eq, Structural)]
pub struct AuthContext {
    /// The id the token speaks for.
    pub user_id: u64,
    /// The role the token carries.
    pub role: Role,
}

/// The guard's verdict on one claim set at one time: expiry is checked
/// first, then the role requirement.
pub open spec fn guard_spec(c: ClaimsView, now: u64, req: RoleReq) -> Result<
    AuthContext,
    GuardError,
> {
    if c.exp < now {
        Err(GuardError::Expired)
    } else if !req.spec_allows(c.role) {
        Err(GuardError::Forbidden)
    } else {
        Ok(AuthContext { user_id: c.id, role: c.role })
    }
}

/// Applies the expiry and role checks to an already verified claim set.
///
/// A claim set whose expiry lies before `now` fails with `Expired`
/// whatever its role; an unexpired one fails with `Forbidden` exactly when
/// its role does not satisfy the requirement; otherwise the claimed
/// identity is returned.
pub fn authorize_claims(c: &Claims, now: u64, req: RoleReq) -> (r: Result<AuthContext, GuardError>)
    ensures
        r == guard_spec(c@, now, req),
{
    if c.exp < now {
        return Err(GuardError::Expired);
    }
    if !req.allows(c.role) {
        return Err(GuardError::Forbidden);
    }
    Ok(AuthContext { user_id: c.id, role: c.role })
}

/// The guard's whole verdict on a token string: whatever the codec
/// rejects fails with `Unauthenticated`; a decoded claim set is judged by
/// [`guard_spec`].
pub open spec fn authorize_spec(token: Seq<char>, key: Seq<u8>, now: u64, req: RoleReq) -> Result<
    AuthContext,
    GuardError,
> {
    match verify_spec(token, key) {
        Ok(c) => guard_spec(c, now, req),
        Err(_) => Err(GuardError::Unauthenticated),
    }
}

/// The access guard: verifies a bearer token under the access key and
/// authorizes it against a role requirement.
///
/// The verdict is exactly [`authorize_spec`] — pure, stateless and the
/// same on every call with the same arguments. For a token signed under
/// this key for some claim set, that is `guard_spec` on the claim set; a
/// token signed under any other key fails with `Unauthenticated`, as does
/// anything that is not a well-formed token.
pub fn authorize(token: &str, key: &[u8], now: u64, req: RoleReq) -> (r: Result<
    AuthContext,
    GuardError,
>)
    ensures
        r == authorize_spec(token@, key@, now, req),
        forall|c: ClaimsView|
            token@ == #[trigger] claims_token(key@, c) ==> r == guard_spec(c, now, req),
        forall|k2: Seq<u8>, c: ClaimsView|
            token@ == #[trigger] claims_token(k2, c) && k2 != key@ ==> (r matches Err(e) && e
                == GuardError::Unauthenticated),
{
    let claims = match verify_claims(token, key) {
        Ok(c) => c,
        Err(_) => {
            return Err(GuardError::Unauthenticated);
        },
    };
    authorize_claims(&claims, now, req)
}

} // verus!
