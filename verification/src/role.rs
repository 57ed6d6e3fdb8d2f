//! User roles and per-operation role requirements.

use vstd::prelude::*;

verus! {

/// The role stored on a user record and carried inside token claims.
///
/// On the wire and in the store the role is an integer code:
/// 0 for a student, 1 for a teacher, 2 for an admin.
#[derive(Clone, Copy, Debug, PartialEq, Eq, Structural)]
pub enum Role {
    Student,
    Teacher,
    Admin,
}

impl Role {
    /// The integer code of the role.
    pub open spec fn spec_code(self) -> u64 {
        match self {
            Role::Student => 0,
            Role::Teacher => 1,
            Role::Admin => 2,
        }
    }

    /// The role denoted by an integer code, if any.
    pub open spec fn spec_from_code(code: u64) -> Option<Role> {
        if code == 0 {
            Some(Role::Student)
        } else if code == 1 {
            Some(Role::Teacher)
        } else if code == 2 {
            Some(Role::Admin)
        } else {
            None
        }
    }

    pub fn code(self) -> (r: u64)
        ensures
            r == self.spec_code(),
    {
        match self {
            Role::Student => 0,
            Role::Teacher => 1,
            Role::Admin => 2,
        }
    }

    pub fn from_code(code: u64) -> (r: Option<Role>)
        ensures
            r == Role::spec_from_code(code),
    {
        if code == 0 {
            Some(Role::Student)
        } else if code == 1 {
            Some(Role::Teacher)
        } else if code == 2 {
            Some(Role::Admin)
        } else {
            None
        }
    }

    /// Codes and roles correspond one to one.
    pub proof fn lemma_code_round_trip(self)
        ensures
            Role::spec_from_code(self.spec_code()) == Some(self),
    {
    }
}

/// The role requirement a protected operation is guarded by.
#[derive(Clone, Copy, Debug, PartialEq, Eq, Structural)]
pub enum RoleReq {
    /// Any authenticated user.
    Any,
    /// Teachers and admins only.
    TeacherOrAdmin,
    /// Admins only.
    AdminOnly,
}

impl RoleReq {
    /// Whether a role satisfies the requirement.
    pub open spec fn spec_allows(self, role: Role) -> bool {
        match self {
            RoleReq::Any => true,
            RoleReq::TeacherOrAdmin => role == Role::Teacher || role == Role::Admin,
            RoleReq::AdminOnly => role == Role::Admin,
        }
    }

    pub fn allows(self, role: Role) -> (r: bool)
        ensures
            r == self.spec_allows(role),
    {
        match self {
            RoleReq::Any => true,
            RoleReq::TeacherOrAdmin => role == Role::Teacher || role == Role::Admin,
            RoleReq::AdminOnly => role == Role::Admin,
        }
    }
}

} // verus!
