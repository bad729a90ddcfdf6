use vstd::prelude::*;
use crate::picks::{DbPick, PickWithUser, Status};
use crate::sessions::DbSession;
use crate::users::DbUser;

verus! {

/// A user as the API shows it to everyone.
#[derive(Debug, Clone)]
pub struct UserResponse {
    /// Unique user id
    pub id: u128,
    /// Username
    pub username: String,
    /// Avatar url
    pub avatar_url: Option<String>,
    /// Banner url
    pub banner_url: Option<String>,
    /// Created at
    pub created: i128,
}

/// A user as the API shows it to the user itself: the public data and the email.
#[derive(Debug, Clone)]
pub struct UserSelfResponse {
    /// User data
    pub user: UserResponse,
    /// Email
    pub email: String,
}

/// The public view of a user.
pub open spec fn user_response_of(u: DbUser) -> UserResponse {
    UserResponse {
        id: u.id,
        username: u.username,
        avatar_url: u.avatar_url,
        banner_url: u.banner_url,
        created: u.created,
    }
}

impl From<DbUser> for UserResponse {
    /// Shows the user's id, username, avatar, banner and creation time; the
    /// email, password hash and role are left out.
    fn from(value: DbUser) -> (r: UserResponse)
        ensures
            r.id == value.id,
            r.username@ == value.username@,
            r.avatar_url == value.avatar_url,
            r.banner_url == value.banner_url,
            r.created == value.created,
    {
        UserResponse {
            id: value.id,
            username: value.username,
            avatar_url: value.avatar_url,
            banner_url: value.banner_url,
            created: value.created,
        }
    }
}

impl vstd::std_specs::convert::FromSpecImpl<DbUser> for UserResponse {
    open spec fn obeys_from_spec() -> bool {
        true
    }

    open spec fn from_spec(v: DbUser) -> UserResponse {
        user_response_of(v)
    }
}

impl From<DbUser> for UserSelfResponse {
    /// Shows the public data of the user and the email.
    fn from(value: DbUser) -> (r: UserSelfResponse)
        ensures
            r.user.id == value.id,
            r.user.username@ == value.username@,
            r.user.avatar_url == value.avatar_url,
            r.user.banner_url == value.banner_url,
            r.user.created == value.created,
            r.email@ == value.email@,
    {
        let email = value.email.clone();
        UserSelfResponse { email, user: UserResponse::from(value) }
    }
}

impl vstd::std_specs::convert::FromSpecImpl<DbUser> for UserSelfResponse {
    open spec fn obeys_from_spec() -> bool {
        true
    }

    open spec fn from_spec(v: DbUser) -> UserSelfResponse {
        UserSelfResponse { user: user_response_of(v), email: v.email }
    }
}

/// The owner of a pick, as the API shows it.
#[derive(Debug, Clone)]
pub struct PickOwner {
    pub id: u128,
    pub display_name: String,
    pub username: String,
    pub avatar: Option<String>,
}

/// A pick as the API shows it.
#[derive(Debug, Clone)]
pub struct PickResponse {
    pub id: u128,
    pub title: Option<String>,
    pub description: Option<String>,
    pub source_url: Option<String>,
    pub created: i128,
    pub mimetype: String,
    pub status: Status,
    pub private: bool,
    pub ai_generated: bool,
    pub nsfw: bool,
    pub deleted: bool,
    pub file_url: Option<String>,
    pub owner: Option<PickOwner>,
}

impl From<DbPick> for PickResponse {
    /// Shows every field of the pick as it is stored, with no owner.
    fn from(value: DbPick) -> (r: PickResponse)
        ensures
            r.id == value.id,
            r.title == value.title,
            r.description == value.description,
            r.source_url == value.source_url,
            r.created == value.created,
            r.mimetype@ == value.mimetype@,
            r.status == value.status,
            r.private == value.private,
            r.ai_generated == value.ai_generated,
            r.nsfw == value.nsfw,
            r.deleted == value.deleted,
            r.file_url == value.file_url,
            r.owner is None,
    {
        PickResponse {
            id: value.id,
            title: value.title,
            description: value.description,
            source_url: value.source_url,
            created: value.created,
            mimetype: value.mimetype,
            status: value.status,
            private: value.private,
            ai_generated: value.ai_generated,
            nsfw: value.nsfw,
            deleted: value.deleted,
            file_url: value.file_url,
            owner: None,
        }
    }
}

impl vstd::std_specs::convert::FromSpecImpl<DbPick> for PickResponse {
    open spec fn obeys_from_spec() -> bool {
        true
    }

    open spec fn from_spec(value: DbPick) -> PickResponse {
        PickResponse {
            id: value.id,
            title: value.title,
            description: value.description,
            source_url: value.source_url,
            created: value.created,
            mimetype: value.mimetype,
            status: value.status,
            private: value.private,
            ai_generated: value.ai_generated,
            nsfw: value.nsfw,
            deleted: value.deleted,
            file_url: value.file_url,
            owner: None,
        }
    }
}

impl From<PickWithUser> for PickResponse {
    /// Shows every field of the pick as it is stored, and its owner.
    fn from(value: PickWithUser) -> (r: PickResponse)
        ensures
            r.id == value.id,
            r.title == value.title,
            r.description == value.description,
            r.source_url == value.source_url,
            r.created == value.created,
            r.mimetype@ == value.mimetype@,
            r.status == value.status,
            r.private == value.private,
            r.ai_generated == value.ai_generated,
            r.nsfw == value.nsfw,
            r.deleted == value.deleted,
            r.file_url == value.file_url,
            r.owner matches Some(o) && o.id == value.user_id && o.display_name@
                == value.user_display_name@ && o.username@ == value.user_username@ && o.avatar
                == value.user_avatar,
    {
        let owner = PickOwner {
            id: value.user_id,
            display_name: value.user_display_name,
            username: value.user_username,
            avatar: value.user_avatar,
        };
        PickResponse {
            id: value.id,
            title: value.title,
            description: value.description,
            source_url: value.source_url,
            created: value.created,
            mimetype: value.mimetype,
            status: value.status,
            private: value.private,
            ai_generated: value.ai_generated,
            nsfw: value.nsfw,
            deleted: value.deleted,
            file_url: value.file_url,
            owner: Some(owner),
        }
    }
}

impl vstd::std_specs::convert::FromSpecImpl<PickWithUser> for PickResponse {
    open spec fn obeys_from_spec() -> bool {
        true
    }

    open spec fn from_spec(value: PickWithUser) -> PickResponse {
        PickResponse {
            id: value.id,
            title: value.title,
            description: value.description,
            source_url: value.source_url,
            created: value.created,
            mimetype: value.mimetype,
            status: value.status,
            private: value.private,
            ai_generated: value.ai_generated,
            nsfw: value.nsfw,
            deleted: value.deleted,
            file_url: value.file_url,
            owner: Some(
                PickOwner {
                    id: value.user_id,
                    display_name: value.user_display_name,
                    username: value.user_username,
                    avatar: value.user_avatar,
                },
            ),
        }
    }
}

/// The owner of a card, as the API shows it.
#[derive(Debug, Clone)]
pub struct CardOwner {
    pub id: u128,
    pub username: String,
    pub avatar: Option<String>,
}

/// A card (the earlier name of a pick) as the API shows it.
#[derive(Debug, Clone)]
pub struct CardResponse {
    pub id: u128,
    pub title: Option<String>,
    pub description: Option<String>,
    pub source_url: Option<String>,
    pub created: i128,
    pub mimetype: String,
    pub status: Status,
    pub private: bool,
    pub ai_generated: bool,
    pub nsfw: bool,
    pub deleted: bool,
    pub file_url: Option<String>,
    pub owner: Option<CardOwner>,
}

impl From<DbPick> for CardResponse {
    /// Shows every field of the pick as it is stored, with no owner.
    fn from(value: DbPick) -> (r: CardResponse)
        ensures
            r.id == value.id,
            r.title == value.title,
            r.description == value.description,
            r.source_url == value.source_url,
            r.created == value.created,
            r.mimetype@ == value.mimetype@,
            r.status == value.status,
            r.private == value.private,
            r.ai_generated == value.ai_generated,
            r.nsfw == value.nsfw,
            r.deleted == value.deleted,
            r.file_url == value.file_url,
            r.owner is None,
    {
        CardResponse {
            id: value.id,
            title: value.title,
            description: value.description,
            source_url: value.source_url,
            created: value.created,
            mimetype: value.mimetype,
            status: value.status,
            private: value.private,
            ai_generated: value.ai_generated,
            nsfw: value.nsfw,
            deleted: value.deleted,
            file_url: value.file_url,
            owner: None,
        }
    }
}

impl vstd::std_specs::convert::FromSpecImpl<DbPick> for CardResponse {
    open spec fn obeys_from_spec() -> bool {
        true
    }

    open spec fn from_spec(value: DbPick) -> CardResponse {
        CardResponse {
            id: value.id,
            title: value.title,
            description: value.description,
            source_url: value.source_url,
            created: value.created,
            mimetype: value.mimetype,
            status: value.status,
            private: value.private,
            ai_generated: value.ai_generated,
            nsfw: value.nsfw,
            deleted: value.deleted,
            file_url: value.file_url,
            owner: None,
        }
    }
}

impl From<PickWithUser> for CardResponse {
    /// Shows every field of the pick as it is stored, and its owner.
    fn from(value: PickWithUser) -> (r: CardResponse)
        ensures
            r.id == value.id,
            r.title == value.title,
            r.description == value.description,
            r.source_url == value.source_url,
            r.created == value.created,
            r.mimetype@ == value.mimetype@,
            r.status == value.status,
            r.private == value.private,
            r.ai_generated == value.ai_generated,
            r.nsfw == value.nsfw,
            r.deleted == value.deleted,
            r.file_url == value.file_url,
            r.owner matches Some(o) && o.id == value.user_id && o.username@
                == value.user_username@ && o.avatar == value.user_avatar,
    {
        let owner = CardOwner {
            id: value.user_id,
            username: value.user_username,
            avatar: value.user_avatar,
        };
        CardResponse {
            id: value.id,
            title: value.title,
            description: value.description,
            source_url: value.source_url,
            created: value.created,
            mimetype: value.mimetype,
            status: value.status,
            private: value.private,
            ai_generated: value.ai_generated,
            nsfw: value.nsfw,
            deleted: value.deleted,
            file_url: value.file_url,
            owner: Some(owner),
        }
    }
}

impl vstd::std_specs::convert::FromSpecImpl<PickWithUser> for CardResponse {
    open spec fn obeys_from_spec() -> bool {
        true
    }

    open spec fn from_spec(value: PickWithUser) -> CardResponse {
        CardResponse {
            id: value.id,
            title: value.title,
            description: value.description,
            source_url: value.source_url,
            created: value.created,
            mimetype: value.mimetype,
            status: value.status,
            private: value.private,
            ai_generated: value.ai_generated,
            nsfw: value.nsfw,
            deleted: value.deleted,
            file_url: value.file_url,
            owner: Some(
                CardOwner { id: value.user_id, username: value.user_username, avatar: value.user_avatar },
            ),
        }
    }
}

/// The answer for a pick with its owner carries every field of the row
/// unchanged (the NSFW and AI flags, the title and the description each
/// from its own field) and the owner's id, display name, username and
/// avatar.
pub proof fn law_pick_response_shows_row(v: PickWithUser)
    ensures
        <PickResponse as vstd::std_specs::convert::FromSpec<PickWithUser>>::from_spec(v).id == v.id,
        <PickResponse as vstd::std_specs::convert::FromSpec<PickWithUser>>::from_spec(v).title == v.title,
        <PickResponse as vstd::std_specs::convert::FromSpec<PickWithUser>>::from_spec(v).description == v.description,
        <PickResponse as vstd::std_specs::convert::FromSpec<PickWithUser>>::from_spec(v).source_url == v.source_url,
        <PickResponse as vstd::std_specs::convert::FromSpec<PickWithUser>>::from_spec(v).created == v.created,
        <PickResponse as vstd::std_specs::convert::FromSpec<PickWithUser>>::from_spec(v).status == v.status,
        <PickResponse as vstd::std_specs::convert::FromSpec<PickWithUser>>::from_spec(v).private == v.private,
        <PickResponse as vstd::std_specs::convert::FromSpec<PickWithUser>>::from_spec(v).ai_generated == v.ai_generated,
        <PickResponse as vstd::std_specs::convert::FromSpec<PickWithUser>>::from_spec(v).nsfw == v.nsfw,
        <PickResponse as vstd::std_specs::convert::FromSpec<PickWithUser>>::from_spec(v).deleted == v.deleted,
        <PickResponse as vstd::std_specs::convert::FromSpec<PickWithUser>>::from_spec(v).file_url == v.file_url,
        <PickResponse as vstd::std_specs::convert::FromSpec<PickWithUser>>::from_spec(v).mimetype@ == v.mimetype@,
        <PickResponse as vstd::std_specs::convert::FromSpec<PickWithUser>>::from_spec(v).owner matches Some(o) && o.id == v.user_id
            && o.display_name@ == v.user_display_name@ && o.username@ == v.user_username@
            && o.avatar == v.user_avatar,
{
}

/// The card for a pick with its owner carries every field of the row
/// unchanged (the title and the description each from its own field) and
/// the owner's id, username and avatar.
pub proof fn law_card_response_shows_row(v: PickWithUser)
    ensures
        <CardResponse as vstd::std_specs::convert::FromSpec<PickWithUser>>::from_spec(v).id == v.id,
        <CardResponse as vstd::std_specs::convert::FromSpec<PickWithUser>>::from_spec(v).title == v.title,
        <CardResponse as vstd::std_specs::convert::FromSpec<PickWithUser>>::from_spec(v).description == v.description,
        <CardResponse as vstd::std_specs::convert::FromSpec<PickWithUser>>::from_spec(v).source_url == v.source_url,
        <CardResponse as vstd::std_specs::convert::FromSpec<PickWithUser>>::from_spec(v).created == v.created,
        <CardResponse as vstd::std_specs::convert::FromSpec<PickWithUser>>::from_spec(v).status == v.status,
        <CardResponse as vstd::std_specs::convert::FromSpec<PickWithUser>>::from_spec(v).private == v.private,
        <CardResponse as vstd::std_specs::convert::FromSpec<PickWithUser>>::from_spec(v).ai_generated == v.ai_generated,
        <CardResponse as vstd::std_specs::convert::FromSpec<PickWithUser>>::from_spec(v).nsfw == v.nsfw,
        <CardResponse as vstd::std_specs::convert::FromSpec<PickWithUser>>::from_spec(v).deleted == v.deleted,
        <CardResponse as vstd::std_specs::convert::FromSpec<PickWithUser>>::from_spec(v).file_url == v.file_url,
        <CardResponse as vstd::std_specs::convert::FromSpec<PickWithUser>>::from_spec(v).mimetype@ == v.mimetype@,
        <CardResponse as vstd::std_specs::convert::FromSpec<PickWithUser>>::from_spec(v).owner matches Some(o) && o.id == v.user_id
            && o.username@ == v.user_username@ && o.avatar == v.user_avatar,
{
}

/// The public view of a user keeps the user's id, username, avatar, banner
/// and creation time.
pub proof fn law_user_response_keeps_user(u: DbUser)
    ensures
        user_response_of(u).id == u.id,
        user_response_of(u).username@ == u.username@,
        user_response_of(u).avatar_url == u.avatar_url,
        user_response_of(u).banner_url == u.banner_url,
        user_response_of(u).created == u.created,
{
}

/// A session as the API shows it.
#[derive(Debug, Clone)]
pub struct SessionResponse {
    /// Session id
    id: u128,
    /// Session creation time
    created: i128,
    /// Session user agent
    user_agent: Option<String>,
}

impl SessionResponse {
    /// The id, creation time and user agent shown.
    pub closed spec fn parts(&self) -> (u128, i128, Option<String>) {
        (self.id, self.created, self.user_agent)
    }

    pub fn id(&self) -> (r: u128)
        ensures
            r == self.parts().0,
    {
        self.id
    }

    pub fn created(&self) -> (r: i128)
        ensures
            r == self.parts().1,
    {
        self.created
    }

    pub fn user_agent(&self) -> (r: &Option<String>)
        ensures
            *r == self.parts().2,
    {
        &self.user_agent
    }
}

impl From<DbSession> for SessionResponse {
    /// Shows the session's id, creation time and user agent; its key, owner
    /// and expiry are left out.
    fn from(value: DbSession) -> (r: SessionResponse)
        ensures
            r.parts() == (value.id, value.created, value.user_agent),
    {
        SessionResponse { id: value.id, created: value.created, user_agent: value.user_agent }
    }
}

impl vstd::std_specs::convert::FromSpecImpl<DbSession> for SessionResponse {
    open spec fn obeys_from_spec() -> bool {
        true
    }

    closed spec fn from_spec(value: DbSession) -> SessionResponse {
        SessionResponse { id: value.id, created: value.created, user_agent: value.user_agent }
    }
}

} // verus!

verus! {

/// Converts every item of a list, in order (`into_iter().map(From::from).collect()`).
pub fn convert_all<A, B: From<A>>(items: Vec<A>) -> (r: Vec<B>)
    ensures
        r@.len() == items@.len(),
        forall|i: int|
            0 <= i < items@.len() ==> call_ensures(B::from, (items@[i],), #[trigger] r@[i]),
{
    let mut out: Vec<B> = Vec::new();
    let mut rest = items;
    let ghost orig = items@;
    while rest.len() > 0
        invariant
            out@.len() + rest@.len() == orig.len(),
            rest@ == orig.skip(out@.len() as int),
            forall|i: int|
                0 <= i < out@.len() ==> call_ensures(B::from, (orig[i],), #[trigger] out@[i]),
        decreases rest.len(),
    {
        let a = rest.remove(0);
        proof {
            assert(rest@ =~= orig.skip(out@.len() as int + 1));
        }
        out.push(B::from(a));
    }
    out
}

/// The answers for a list of picks with their owners, in order.
pub fn pick_responses(picks: Vec<PickWithUser>) -> (r: Vec<PickResponse>)
    ensures
        r@.len() == picks@.len(),
        forall|i: int|
            0 <= i < picks@.len() ==> #[trigger] r@[i] == <PickResponse as vstd::std_specs::convert::FromSpec<
                PickWithUser,
            >>::from_spec(picks@[i]),
{
    convert_all(picks)
}

/// The answers for a list of picks with their owners, shown as cards, in order.
pub fn card_responses(picks: Vec<PickWithUser>) -> (r: Vec<CardResponse>)
    ensures
        r@.len() == picks@.len(),
        forall|i: int|
            0 <= i < picks@.len() ==> #[trigger] r@[i] == <CardResponse as vstd::std_specs::convert::FromSpec<
                PickWithUser,
            >>::from_spec(picks@[i]),
{
    convert_all(picks)
}

/// The answers for a list of sessions, in order.
pub fn session_responses(sessions: Vec<DbSession>) -> (r: Vec<SessionResponse>)
    ensures
        r@.len() == sessions@.len(),
        forall|i: int|
            0 <= i < sessions@.len() ==> #[trigger] r@[i].parts() == (
                sessions@[i].id,
                sessions@[i].created,
                sessions@[i].user_agent,
            ),
{
    convert_all(sessions)
}

} // verus!
