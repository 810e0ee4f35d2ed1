//! Profile types: the user-facing profile update request.

use vstd::prelude::*;

verus! {

/// Request body for updating one's own profile; every field optional.
#[derive(Debug, Clone, PartialEq, Eq)]
pub struct UpdateProfileRequest {
    pub first_name: Option<String>,
    pub last_name: Option<String>,
    pub phone: Option<String>,
    pub company_name: Option<String>,
    pub title: Option<String>,
    pub bio: Option<String>,
    pub location: Option<String>,
}

} // verus!
