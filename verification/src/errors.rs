//! The typed failures that the access-control operations report.

use vstd::prelude::*;

verus! {

/// Why an operation was refused. Every refusal leaves the state untouched.
#[derive(Copy, Clone, Debug, PartialEq, Eq, Structural, PartialOrd, Ord, Hash)]
pub enum RbacError {
    /// The caller does not currently hold the role that authorizes the action.
    NotAuthorized,
    /// A nonzero expiry that is not strictly later than the current time.
    InvalidExpiry,
    /// A role was named that has never been created.
    RoleNotFound,
    /// The account is not a member of the role.
    NotMember,
    /// The role to create exists already.
    RoleAlreadyExists,
    /// A role other than the root role was named as its own admin.
    InvalidSelfAdmin,
}

impl RbacError {
    /// The number under which the error is reported to a caller.
    pub open spec fn spec_code(self) -> u32 {
        match self {
            RbacError::NotAuthorized => 1,
            RbacError::InvalidExpiry => 2,
            RbacError::RoleNotFound => 3,
            RbacError::NotMember => 4,
            RbacError::RoleAlreadyExists => 5,
            RbacError::InvalidSelfAdmin => 6,
        }
    }

    /// The number under which the error is reported to a caller.
    #[verifier::when_used_as_spec(spec_code)]
    pub fn code(self) -> (c: u32)
        ensures
            c == self.spec_code(),
    {
        match self {
            RbacError::NotAuthorized => 1,
            RbacError::InvalidExpiry => 2,
            RbacError::RoleNotFound => 3,
            RbacError::NotMember => 4,
            RbacError::RoleAlreadyExists => 5,
            RbacError::InvalidSelfAdmin => 6,
        }
    }

    /// The error reported under `code`, if there is one.
    pub fn from_code(code: u32) -> (e: Option<RbacError>)
        ensures
            match e {
                Some(err) => err.spec_code() == code,
                None => forall|err: RbacError| err.spec_code() != code,
            },
    {
        if code == 1 {
            Some(RbacError::NotAuthorized)
        } else if code == 2 {
            Some(RbacError::InvalidExpiry)
        } else if code == 3 {
            Some(RbacError::RoleNotFound)
        } else if code == 4 {
            Some(RbacError::NotMember)
        } else if code == 5 {
            Some(RbacError::RoleAlreadyExists)
        } else if code == 6 {
            Some(RbacError::InvalidSelfAdmin)
        } else {
            None
        }
    }
}

} // verus!
