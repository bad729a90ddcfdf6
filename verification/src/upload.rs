use vstd::prelude::*;
use crate::api::UploadRequest;
use crate::clock::{earliest_instant, latest_instant};
use crate::ids::{id_parsed, id_text, new_random_id, parse_id};
use crate::picks::{DbPick, Status};
use crate::responses::PickResponse;
use crate::server_error::Error;
use crate::storage::StorageError;

verus! {

/// Reads the id of a resource from a request path; a text that is not an
/// id is a bad request.
pub fn parse_resource_id(s: &str) -> (r: Result<u128, Error>)
    ensures
        match id_parsed(s@) {
            Some(v) => r == Ok::<u128, Error>(v),
            None => r matches Err(e) && e is BadRequest,
        },
        forall|v: u128| s@ == id_text(v) ==> r == Ok::<u128, Error>(v),
{
    match parse_id(s) {
        Some(v) => Ok(v),
        None => Err(Error::BadRequest),
    }
}

/// The new pick of an upload by `owner_id`: a fresh random id, the request's
/// metadata, and the content type of the file, which an upload must have.
pub fn new_upload_pick(meta: UploadRequest, owner_id: u128, content_type: Option<String>) -> (r:
    Result<DbPick, Error>)
    ensures
        content_type is None <==> r is Err,
        r matches Err(e) ==> e is BadRequest,
        r matches Ok(p) ==> {
            &&& Some(p.mimetype) == content_type
            &&& p.title == meta.title
            &&& p.description == meta.description
            &&& p.source_url == meta.source
            &&& p.owner_id == owner_id
            &&& p.private == meta.private
            &&& p.ai_generated == meta.ai_generated
            &&& p.nsfw == meta.nsfw
            &&& p.status == Status::Pending
            &&& p.file_url is None
            &&& !p.deleted
            &&& earliest_instant() <= p.created <= latest_instant()
        },
{
    let mimetype = match content_type {
        Some(m) => m,
        None => return Err(Error::BadRequest),
    };
    let id = new_random_id();
    Ok(
        DbPick::new(
            id,
            meta.title,
            meta.description,
            meta.source,
            owner_id,
            mimetype,
            meta.private,
            meta.ai_generated,
            meta.nsfw,
        ),
    )
}

/// Whether showing a pick asks who is looking: a private pick with an owner.
pub open spec fn needs_viewer(p: PickResponse) -> bool {
    p.owner is Some && p.private
}

/// Whether `viewer` (the user of the request's session, if any) may see a
/// pick: a private pick with an owner is shown to its owner only.
pub open spec fn may_view(p: PickResponse, viewer: Option<u128>) -> bool {
    needs_viewer(p) ==> (viewer matches Some(v) && v == p.owner->0.id)
}

/// Whether showing the pick asks for the request's session.
pub fn pick_needs_viewer(p: &PickResponse) -> (r: bool)
    ensures
        r == needs_viewer(*p),
{
    match &p.owner {
        Some(_) => p.private,
        None => false,
    }
}

/// Checks that the pick may be shown to `viewer`; else the request is
/// forbidden.
pub fn check_pick_visibility(p: &PickResponse, viewer: Option<u128>) -> (r: Result<(), Error>)
    ensures
        r is Ok <==> may_view(*p, viewer),
        r matches Err(e) ==> e is Forbidden,
{
    if let Some(owner) = &p.owner {
        if p.private {
            match viewer {
                None => return Err(Error::Forbidden),
                Some(v) => {
                    if owner.id != v {
                        return Err(Error::Forbidden);
                    }
                },
            }
        }
    }
    Ok(())
}

/// A pick is always shown to its owner, and a pick that is not private is
/// shown to everyone.
pub proof fn law_pick_visibility(p: PickResponse, viewer: Option<u128>)
    ensures
        p.owner matches Some(o) ==> may_view(p, Some(o.id)),
        !p.private ==> may_view(p, viewer),
{
}

/// Checks that `user` owns the card; a card without an owner belongs to no one.
pub fn check_card_owner(owner: Option<u128>, user: u128) -> (r: Result<(), Error>)
    ensures
        r is Ok <==> owner == Some(user),
        r matches Err(e) ==> e is Forbidden,
{
    match owner {
        None => Err(Error::Forbidden),
        Some(o) => if o != user {
            Err(Error::Forbidden)
        } else {
            Ok(())
        },
    }
}

/// Where the processing of an uploaded file stands.
#[derive(Debug)]
pub enum UploadFlow {
    /// Not started.
    Start,
    /// Waiting for the pick to be marked as processing.
    MarkingProcessing,
    /// Waiting for the file to be put in the store.
    Uploading,
    /// Waiting for the file's name to be saved with the pick.
    SavingFileUrl,
    /// Waiting for the pick to be marked ready.
    MarkingReady,
    /// Waiting for the pick to be marked as failed.
    MarkingFailed,
    /// Finished, with this outcome.
    Done(Result<(), Error>),
}

/// What the outside world reports to the processing of an upload.
#[derive(Debug)]
pub enum UploadEvent {
    /// Go.
    Begin,
    /// The status of the pick was written (or not).
    StatusSet(Result<(), Error>),
    /// The file was put in the store under this name (or not).
    Uploaded(Result<String, StorageError>),
    /// The file's name was saved with the pick (or not).
    FileUrlSet(Result<(), Error>),
}

/// What the processing of an upload asks the outside world to do next.
#[derive(Debug, Clone)]
pub enum UploadAction {
    /// Write this status for the pick.
    SetStatus(Status),
    /// Put the file in the store.
    Upload,
    /// Save this file name with the pick.
    SetFileUrl(String),
    /// Stop; the outcome is in `Done`.
    Finish,
}

/// What a state waits for, asked again when an event does not fit it.
pub open spec fn upload_awaited(s: UploadFlow) -> UploadAction {
    match s {
        UploadFlow::Start => UploadAction::SetStatus(Status::Processing),
        UploadFlow::MarkingProcessing => UploadAction::SetStatus(Status::Processing),
        UploadFlow::Uploading => UploadAction::Upload,
        UploadFlow::SavingFileUrl => UploadAction::Upload,
        UploadFlow::MarkingReady => UploadAction::SetStatus(Status::Ready),
        UploadFlow::MarkingFailed => UploadAction::SetStatus(Status::Failed),
        UploadFlow::Done(_) => UploadAction::Finish,
    }
}

/// One step of the processing of an upload: mark the pick as processing,
/// put the file in the store, then save its name and mark the pick ready;
/// if the store fails, mark the pick as failed and end in an internal error.
/// A failure to write the pick ends the processing with that failure.
pub open spec fn upload_step(s: UploadFlow, ev: UploadEvent) -> (UploadFlow, UploadAction) {
    match (s, ev) {
        (UploadFlow::Start, UploadEvent::Begin) => (
            UploadFlow::MarkingProcessing,
            UploadAction::SetStatus(Status::Processing),
        ),
        (UploadFlow::MarkingProcessing, UploadEvent::StatusSet(Ok(()))) => (
            UploadFlow::Uploading,
            UploadAction::Upload,
        ),
        (UploadFlow::MarkingProcessing, UploadEvent::StatusSet(Err(e))) => (
            UploadFlow::Done(Err(e)),
            UploadAction::Finish,
        ),
        (UploadFlow::Uploading, UploadEvent::Uploaded(Ok(name))) => (
            UploadFlow::SavingFileUrl,
            UploadAction::SetFileUrl(name),
        ),
        (UploadFlow::Uploading, UploadEvent::Uploaded(Err(_))) => (
            UploadFlow::MarkingFailed,
            UploadAction::SetStatus(Status::Failed),
        ),
        (UploadFlow::SavingFileUrl, UploadEvent::FileUrlSet(Ok(()))) => (
            UploadFlow::MarkingReady,
            UploadAction::SetStatus(Status::Ready),
        ),
        (UploadFlow::SavingFileUrl, UploadEvent::FileUrlSet(Err(e))) => (
            UploadFlow::Done(Err(e)),
            UploadAction::Finish,
        ),
        (UploadFlow::MarkingReady, UploadEvent::StatusSet(r)) => (
            UploadFlow::Done(r),
            UploadAction::Finish,
        ),
        (UploadFlow::MarkingFailed, UploadEvent::StatusSet(Ok(()))) => (
            UploadFlow::Done(Err(Error::InternalError)),
            UploadAction::Finish,
        ),
        (UploadFlow::MarkingFailed, UploadEvent::StatusSet(Err(e))) => (
            UploadFlow::Done(Err(e)),
            UploadAction::Finish,
        ),
        (s, _) => (s, upload_awaited(s)),
    }
}

impl UploadFlow {
    /// The processing of an upload, not started.
    pub fn new() -> (r: Self)
        ensures
            r is Start,
    {
        UploadFlow::Start
    }

    /// What the state waits for.
    pub fn awaited(&self) -> (r: UploadAction)
        ensures
            r == upload_awaited(*self),
    {
        match self {
            UploadFlow::Start => UploadAction::SetStatus(Status::Processing),
            UploadFlow::MarkingProcessing => UploadAction::SetStatus(Status::Processing),
            UploadFlow::Uploading => UploadAction::Upload,
            UploadFlow::SavingFileUrl => UploadAction::Upload,
            UploadFlow::MarkingReady => UploadAction::SetStatus(Status::Ready),
            UploadFlow::MarkingFailed => UploadAction::SetStatus(Status::Failed),
            UploadFlow::Done(_) => UploadAction::Finish,
        }
    }

    /// Takes in an event; gives the next state and what to do.
    pub fn step(self, ev: UploadEvent) -> (r: (Self, UploadAction))
        ensures
            r == upload_step(self, ev),
    {
        match (self, ev) {
            (UploadFlow::Start, UploadEvent::Begin) => (
                UploadFlow::MarkingProcessing,
                UploadAction::SetStatus(Status::Processing),
            ),
            (UploadFlow::MarkingProcessing, UploadEvent::StatusSet(Ok(()))) => (
                UploadFlow::Uploading,
                UploadAction::Upload,
            ),
            (UploadFlow::MarkingProcessing, UploadEvent::StatusSet(Err(e))) => (
                UploadFlow::Done(Err(e)),
                UploadAction::Finish,
            ),
            (UploadFlow::Uploading, UploadEvent::Uploaded(Ok(name))) => (
                UploadFlow::SavingFileUrl,
                UploadAction::SetFileUrl(name),
            ),
            (UploadFlow::Uploading, UploadEvent::Uploaded(Err(_))) => (
                UploadFlow::MarkingFailed,
                UploadAction::SetStatus(Status::Failed),
            ),
            (UploadFlow::SavingFileUrl, UploadEvent::FileUrlSet(Ok(()))) => (
                UploadFlow::MarkingReady,
                UploadAction::SetStatus(Status::Ready),
            ),
            (UploadFlow::SavingFileUrl, UploadEvent::FileUrlSet(Err(e))) => (
                UploadFlow::Done(Err(e)),
                UploadAction::Finish,
            ),
            (UploadFlow::MarkingReady, UploadEvent::StatusSet(r)) => (
                UploadFlow::Done(r),
                UploadAction::Finish,
            ),
            (UploadFlow::MarkingFailed, UploadEvent::StatusSet(Ok(()))) => (
                UploadFlow::Done(Err(Error::InternalError)),
                UploadAction::Finish,
            ),
            (UploadFlow::MarkingFailed, UploadEvent::StatusSet(Err(e))) => (
                UploadFlow::Done(Err(e)),
                UploadAction::Finish,
            ),
            (s, _) => {
                let a = s.awaited();
                (s, a)
            },
        }
    }

    /// The outcome, once finished.
    pub fn outcome(self) -> (r: Option<Result<(), Error>>)
        ensures
            match self {
                UploadFlow::Done(res) => r == Some(res),
                _ => r is None,
            },
    {
        match self {
            UploadFlow::Done(res) => Some(res),
            _ => None,
        }
    }
}

/// How far the processing of an upload has come.
pub open spec fn upload_phase(s: UploadFlow) -> int {
    match s {
        UploadFlow::Start => 0,
        UploadFlow::MarkingProcessing => 1,
        UploadFlow::Uploading => 2,
        UploadFlow::SavingFileUrl => 3,
        UploadFlow::MarkingFailed => 3,
        UploadFlow::MarkingReady => 4,
        UploadFlow::Done(_) => 5,
    }
}

/// The event is the one the state waits for.
pub open spec fn upload_event_fits(s: UploadFlow, ev: UploadEvent) -> bool {
    match (s, ev) {
        (UploadFlow::Start, UploadEvent::Begin) => true,
        (UploadFlow::MarkingProcessing, UploadEvent::StatusSet(_)) => true,
        (UploadFlow::Uploading, UploadEvent::Uploaded(_)) => true,
        (UploadFlow::SavingFileUrl, UploadEvent::FileUrlSet(_)) => true,
        (UploadFlow::MarkingReady, UploadEvent::StatusSet(_)) => true,
        (UploadFlow::MarkingFailed, UploadEvent::StatusSet(_)) => true,
        _ => false,
    }
}

/// The event carries out the action.
pub open spec fn upload_event_answers(a: UploadAction, ev: UploadEvent) -> bool {
    match (a, ev) {
        (UploadAction::SetStatus(_), UploadEvent::StatusSet(_)) => true,
        (UploadAction::Upload, UploadEvent::Uploaded(_)) => true,
        (UploadAction::SetFileUrl(_), UploadEvent::FileUrlSet(_)) => true,
        _ => false,
    }
}

/// Processing driven by carrying out what it asks only moves forward: an
/// event that fits the state moves it to a later phase, and carrying out the
/// action it then asks for fits the new state. So a run from the start
/// finishes in at most five steps and puts the file in the store at most once.
pub proof fn law_upload_flow_moves_forward(s: UploadFlow, ev: UploadEvent, next_ev: UploadEvent)
    ensures
        upload_event_fits(s, ev) ==> upload_phase(upload_step(s, ev).0) > upload_phase(s),
        upload_event_fits(s, ev) && upload_event_answers(upload_step(s, ev).1, next_ev)
            ==> upload_event_fits(upload_step(s, ev).0, next_ev),
        upload_event_fits(s, ev) && upload_step(s, ev).1 is Upload ==> upload_step(s, ev).0 is Uploading
            && upload_phase(s) < 2,
        upload_step(s, ev).1 is Finish ==> upload_step(s, ev).0 is Done,
{
}

/// A pick is marked ready only right after the name of its stored file was
/// saved, and the name saved is the one under which the store took the file.
pub proof fn law_ready_only_after_stored_file(s: UploadFlow, ev: UploadEvent)
    ensures
        upload_step(s, ev).1 == UploadAction::SetStatus(Status::Ready) ==> (s is SavingFileUrl
            && ev matches UploadEvent::FileUrlSet(Ok(_))) || s is MarkingReady,
        upload_step(s, ev).1 matches UploadAction::SetFileUrl(name) ==> s is Uploading && ev
            == UploadEvent::Uploaded(Ok::<String, StorageError>(name)),
{
}

/// When every write succeeds and the store takes the file, the pick ends
/// ready with the file's name saved; when the store refuses the file, the
/// pick ends failed and the processing with an internal error.
pub proof fn law_upload_outcomes(name: String, err: StorageError)
    ensures
        ({
            let (s1, a1) = upload_step(UploadFlow::Start, UploadEvent::Begin);
            let (s2, a2) = upload_step(s1, UploadEvent::StatusSet(Ok(())));
            let (s3, a3) = upload_step(s2, UploadEvent::Uploaded(Ok(name)));
            let (s4, a4) = upload_step(s3, UploadEvent::FileUrlSet(Ok(())));
            let (s5, a5) = upload_step(s4, UploadEvent::StatusSet(Ok(())));
            &&& a1 == UploadAction::SetStatus(Status::Processing)
            &&& a2 is Upload
            &&& a3 == UploadAction::SetFileUrl(name)
            &&& a4 == UploadAction::SetStatus(Status::Ready)
            &&& s5 == UploadFlow::Done(Ok(()))
            &&& a5 is Finish
        }),
        ({
            let (s3, a3) = upload_step(UploadFlow::Uploading, UploadEvent::Uploaded(Err(err)));
            let (s4, a4) = upload_step(s3, UploadEvent::StatusSet(Ok(())));
            &&& a3 == UploadAction::SetStatus(Status::Failed)
            &&& s4 == UploadFlow::Done(Err(Error::InternalError))
            &&& a4 is Finish
        }),
{
}

} // verus!
