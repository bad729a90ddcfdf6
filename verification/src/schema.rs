use vstd::prelude::*;
use crate::types::{Role, Visibility};

verus! {

/// Database user structure. Ids are the 128-bit value of a UUID, instants
/// are nanoseconds since the Unix epoch.
#[derive(Debug, Clone)]
pub struct User {
    /// User Uuid
    pub id: u128,
    /// User creation time
    pub created: i128,
    /// User name
    pub username: String,
    /// User email
    pub email: String,
    /// User password hash
    pub password: String,
    /// User role
    pub role: Role,
}

/// User profile
#[derive(Debug, Clone)]
pub struct Profile {
    /// Profile owner uuid
    pub id: u128,
    /// Profile display name
    pub name: String,
    /// Profile description
    pub description: Option<String>,
    /// Profile visibility
    pub visibility: Visibility,
}

} // verus!
