//! The two symmetric signing secrets the process is configured with.
//!
//! Access tokens and refresh tokens are signed under distinct keys; that
//! distinction is the sole mechanism preventing one audience's token from
//! being replayed as the other's, so the pair is only accepted when both
//! keys are non-empty and differ from each other.

use vstd::prelude::*;

use crate::text::bytes_eq;

verus! {

/// The access-signing and refresh-signing secrets.
pub struct AuthKeys {
    access: Vec<u8>,
    refresh: Vec<u8>,
}

/// The mathematical value of a key pair.
pub ghost struct AuthKeysView {
    pub access: Seq<u8>,
    pub refresh: Seq<u8>,
}

impl View for AuthKeys {
    type V = AuthKeysView;

    closed spec fn view(&self) -> AuthKeysView {
        AuthKeysView { access: self.access@, refresh: self.refresh@ }
    }
}

impl AuthKeys {
    /// Both keys are non-empty and distinct from each other.
    pub open spec fn wf(self) -> bool {
        self@.access.len() > 0 && self@.refresh.len() > 0 && self@.access != self@.refresh
    }

    /// Accepts exactly the pairs of non-empty, distinct keys.
    pub fn new(access: Vec<u8>, refresh: Vec<u8>) -> (r: Option<AuthKeys>)
        ensures
            r matches Some(k) ==> k.wf() && k@.access == access@ && k@.refresh == refresh@,
            r is None <==> access@.len() == 0 || refresh@.len() == 0 || access@ == refresh@,
    {
        if access.len() == 0 || refresh.len() == 0 {
            return None;
        }
        if bytes_eq(&access, &refresh) {
            return None;
        }
        Some(AuthKeys { access, refresh })
    }

    /// The key access tokens are signed and verified under.
    pub fn access_key(&self) -> (r: &[u8])
        ensures
            r@ == self@.access,
    {
        self.access.as_slice()
    }

    /// The key refresh tokens are signed and verified under.
    pub fn refresh_key(&self) -> (r: &[u8])
        ensures
            r@ == self@.refresh,
    {
        self.refresh.as_slice()
    }
}

} // verus!
