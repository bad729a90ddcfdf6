use vstd::prelude::*;

verus! {

/// User role in the system, as the database's `USER_ROLE` type stores it.
#[derive(Debug, Clone, Copy, PartialEq, Eq, Structural)]
pub enum Role {
    /// Regular user
    Regular,
    /// User with moderator rights
    Moderator,
    /// Administrator
    Admin,
}

/// Item visibility, as the database's `VISIBILITY` type stores it.
#[derive(Debug, Clone, Copy, PartialEq, Eq, Structural)]
pub enum Visibility {
    /// can be seen by all users
    Public,
    /// only the owner can see
    Private,
}

} // verus!
