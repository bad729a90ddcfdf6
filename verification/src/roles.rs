use vstd::prelude::*;
use crate::text::text_eq;

verus! {

/// A user's role in the system. Each role carries the rights of those
/// before it: a moderator has a regular user's rights, an admin has all.
#[derive(Debug, Clone, Copy, PartialEq, Eq, Structural)]
pub enum Role {
    Regular,
    Moderator,
    Admin,
}

/// The textual form of a role, as stored in the database.
pub open spec fn role_text(r: Role) -> Seq<char> {
    match r {
        Role::Regular => "regular"@,
        Role::Moderator => "moderator"@,
        Role::Admin => "admin"@,
    }
}

/// Reading a role back from its text: anything unknown is a regular user.
pub open spec fn role_from_text(s: Seq<char>) -> Role {
    if s == "moderator"@ {
        Role::Moderator
    } else if s == "admin"@ {
        Role::Admin
    } else {
        Role::Regular
    }
}

/// The rank of a role: the more rights, the higher.
pub open spec fn role_rank(r: Role) -> int {
    match r {
        Role::Regular => 0,
        Role::Moderator => 1,
        Role::Admin => 2,
    }
}

impl Role {
    /// The text stored for this role.
    pub fn as_str(&self) -> (r: &'static str)
        ensures
            r@ == role_text(*self),
    {
        match self {
            Role::Regular => "regular",
            Role::Moderator => "moderator",
            Role::Admin => "admin",
        }
    }

    /// Whether the role carries administrator rights.
    pub fn is_admin(&self) -> (r: bool)
        ensures
            r == (*self == Role::Admin),
    {
        match self {
            Role::Admin => true,
            _ => false,
        }
    }

    /// Whether the role carries moderator rights (moderators and admins).
    pub fn is_moder(&self) -> (r: bool)
        ensures
            r == (role_rank(*self) >= 1),
    {
        match self {
            Role::Regular => false,
            _ => true,
        }
    }
}

impl From<String> for Role {
    fn from(value: String) -> (r: Role) {
        if text_eq(value.as_str(), "moderator") {
            Role::Moderator
        } else if text_eq(value.as_str(), "admin") {
            Role::Admin
        } else {
            Role::Regular
        }
    }
}

impl vstd::std_specs::convert::FromSpecImpl<String> for Role {
    open spec fn obeys_from_spec() -> bool {
        true
    }

    open spec fn from_spec(v: String) -> Role {
        role_from_text(v@)
    }
}

/// Reading back the text of a role gives the role: the stored form of a
/// role is never misread.
pub proof fn law_role_text_round_trip(r: Role)
    ensures
        role_from_text(role_text(r)) == r,
{
    reveal_strlit("regular");
    reveal_strlit("moderator");
    reveal_strlit("admin");
    assert("regular"@.len() == 7 && "moderator"@.len() == 9 && "admin"@.len() == 5);
}

} // verus!
