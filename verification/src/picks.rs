use vstd::prelude::*;
use crate::clock::{earliest_instant, latest_instant, now_nanos};
use crate::text::text_eq;

verus! {

/// Where the file of a pick stands.
#[derive(Debug, Clone, Copy, PartialEq, Eq, Structural)]
pub enum Status {
    Pending,
    Processing,
    Ready,
    Failed,
}

/// The textual form of a status, as stored in the database.
pub open spec fn status_text(s: Status) -> Seq<char> {
    match s {
        Status::Pending => "pending"@,
        Status::Processing => "processing"@,
        Status::Ready => "ready"@,
        Status::Failed => "failed"@,
    }
}

/// Reading a status back from its text: anything unknown is pending.
pub open spec fn status_from_text(t: Seq<char>) -> Status {
    if t == "processing"@ {
        Status::Processing
    } else if t == "ready"@ {
        Status::Ready
    } else if t == "failed"@ {
        Status::Failed
    } else {
        Status::Pending
    }
}

impl Status {
    /// The text stored for this status.
    pub fn as_str(&self) -> (r: &'static str)
        ensures
            r@ == status_text(*self),
    {
        match self {
            Status::Pending => "pending",
            Status::Processing => "processing",
            Status::Ready => "ready",
            Status::Failed => "failed",
        }
    }
}

impl From<String> for Status {
    fn from(value: String) -> (r: Status) {
        if text_eq(value.as_str(), "processing") {
            Status::Processing
        } else if text_eq(value.as_str(), "ready") {
            Status::Ready
        } else if text_eq(value.as_str(), "failed") {
            Status::Failed
        } else {
            Status::Pending
        }
    }
}

impl vstd::std_specs::convert::FromSpecImpl<String> for Status {
    open spec fn obeys_from_spec() -> bool {
        true
    }

    open spec fn from_spec(v: String) -> Status {
        status_from_text(v@)
    }
}

/// Reading back the text of a status gives the status.
pub proof fn law_status_text_round_trip(s: Status)
    ensures
        status_from_text(status_text(s)) == s,
{
    reveal_strlit("pending");
    reveal_strlit("processing");
    reveal_strlit("ready");
    reveal_strlit("failed");
    assert("pending"@.len() == 7 && "processing"@.len() == 10 && "ready"@.len() == 5
        && "failed"@.len() == 6);
}

/// A pick (an uploaded picture with its metadata) as the database holds it.
/// Ids are the 128-bit value of a UUID, instants are nanoseconds since the
/// Unix epoch.
#[derive(Debug, Clone)]
pub struct DbPick {
    pub id: u128,
    pub title: Option<String>,
    pub description: Option<String>,
    pub source_url: Option<String>,
    pub created: i128,
    pub owner_id: u128,
    pub mimetype: String,
    pub status: Status,
    pub file_url: Option<String>,
    pub private: bool,
    pub ai_generated: bool,
    pub nsfw: bool,
    pub deleted: bool,
}

/// A pick joined with its owner's public data.
#[derive(Debug, Clone)]
pub struct PickWithUser {
    pub id: u128,
    pub title: Option<String>,
    pub description: Option<String>,
    pub source_url: Option<String>,
    pub created: i128,
    pub owner_id: u128,
    pub mimetype: String,
    pub status: Status,
    pub file_url: Option<String>,
    pub private: bool,
    pub ai_generated: bool,
    pub nsfw: bool,
    pub deleted: bool,
    pub user_id: u128,
    pub user_display_name: String,
    pub user_username: String,
    pub user_avatar: Option<String>,
}

impl DbPick {
    /// A new pick, created now, pending, with no file yet and not deleted.
    pub fn new(
        id: u128,
        title: Option<String>,
        description: Option<String>,
        source_url: Option<String>,
        owner_id: u128,
        mimetype: String,
        private: bool,
        ai_generated: bool,
        nsfw: bool,
    ) -> (r: DbPick)
        ensures
            r.id == id,
            r.title == title,
            r.description == description,
            r.source_url == source_url,
            r.owner_id == owner_id,
            r.mimetype == mimetype,
            r.status == Status::Pending,
            r.file_url is None,
            r.private == private,
            r.ai_generated == ai_generated,
            r.nsfw == nsfw,
            !r.deleted,
            earliest_instant() <= r.created <= latest_instant(),
    {
        DbPick {
            id,
            title,
            description,
            source_url,
            created: now_nanos(),
            owner_id,
            mimetype,
            status: Status::Pending,
            file_url: None,
            private,
            ai_generated,
            nsfw,
            deleted: false,
        }
    }
}

} // verus!
