//! The organization-account principal.
use crate::github::GitHub;
use crate::users::UserInfo;
use vstd::prelude::*;

verus! {

/// An organization principal: it owns repositories under its own name,
/// acting with the credentials of the transport client it references.
pub struct Organization<'a> {
    pub github: &'a GitHub,
    pub name: &'a str,
}

/// Organization metadata shares the account metadata schema.
pub type OrganizationInfo = UserInfo;

} // verus!
