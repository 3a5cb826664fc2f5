use vstd::prelude::*;
use vstd::string::StringExecFns;
use crate::guard::{auth_outcome, authenticate, lookup_view};
use crate::model::{
    new_movie, new_movie_spec, ApiError, BlobError, FilterV, Movie, MovieV, StoreError, User,
    UserFilter, UserV,
};
use crate::response::{error_json, error_response, object_json_spec, ok_response, status_of, JsonResponse};

verus! {

// Creating a movie touches two stores with no transaction between them. The
// writer below decides, one store reply at a time, what to do next; the
// caller performs each action and hands back what the store said.
//
// Two races are inherent in that design. The title check and the insert are
// separate calls, so two concurrent creations of one title and author may
// both pass the check. The owner link, on the other hand, is one atomic
// set-append in the store, so concurrent creations by one user keep all of
// their links.

/// Where a movie creation stands.
#[derive(PartialEq, Eq, Structural, Clone, Copy, Debug)]
pub enum Stage {
    Authenticating,
    CheckingTitle,
    IssuingKey,
    Uploading,
    Inserting,
    Linking,
    Finished,
}

/// How a movie creation ended. The owner link is written last and its
/// failure is not the caller's concern: the movie exists and is listed, so
/// the caller is told of success, while the operator can tell the two apart.
#[derive(PartialEq, Eq, Structural, Clone, Copy, Debug)]
pub enum WriteOutcome {
    Committed,
    CommittedUnlinked,
    Aborted(ApiError),
}

/// A movie creation in progress.
pub struct AddMovie {
    pub filter: UserFilter,
    pub title: String,
    pub author: String,
    pub stage: Stage,
    /// The blob key, once issued.
    pub image_url: String,
}

pub ghost struct AddMovieV {
    pub filter: FilterV,
    pub title: Seq<char>,
    pub author: Seq<char>,
    pub stage: Stage,
    pub image_url: Seq<char>,
}

impl View for AddMovie {
    type V = AddMovieV;

    open spec fn view(&self) -> AddMovieV {
        AddMovieV {
            filter: self.filter@,
            title: self.title@,
            author: self.author@,
            stage: self.stage,
            image_url: self.image_url@,
        }
    }
}

/// What a store said in reply to the last action.
pub enum AddMovieEvent {
    /// The lookup of the session's user.
    UserFound(Result<Option<User>, StoreError>),
    /// Whether a movie with the title and author is stored.
    TitleFound(Result<bool, StoreError>),
    /// A fresh random text for the blob key.
    KeyIssued(String),
    /// The upload of the image.
    BlobWritten(Result<(), BlobError>),
    /// The insert of the movie record, with the identifier it was given.
    MovieInserted(Result<String, StoreError>),
    /// The append of the movie to its owner's movies.
    OwnerLinked(Result<(), StoreError>),
}

pub ghost enum EventV {
    UserFound(Result<Option<UserV>, StoreError>),
    TitleFound(Result<bool, StoreError>),
    KeyIssued(Seq<char>),
    BlobWritten(Result<(), BlobError>),
    MovieInserted(Result<Seq<char>, StoreError>),
    OwnerLinked(Result<(), StoreError>),
}

impl View for AddMovieEvent {
    type V = EventV;

    open spec fn view(&self) -> EventV {
        match self {
            AddMovieEvent::UserFound(r) => EventV::UserFound(lookup_view(*r)),
            AddMovieEvent::TitleFound(r) => EventV::TitleFound(*r),
            AddMovieEvent::KeyIssued(k) => EventV::KeyIssued(k@),
            AddMovieEvent::BlobWritten(r) => EventV::BlobWritten(*r),
            AddMovieEvent::MovieInserted(r) => EventV::MovieInserted(
                match r {
                    Ok(id) => Ok(id@),
                    Err(e) => Err(*e),
                },
            ),
            AddMovieEvent::OwnerLinked(r) => EventV::OwnerLinked(*r),
        }
    }
}

/// What the caller is to do next.
pub enum AddMovieAction {
    /// Look up the user that matches the session.
    FindUser(UserFilter),
    /// Ask whether a movie with this title and author is stored.
    FindTitle { title: String, author: String },
    /// Draw a fresh random text (see `issue_token`).
    IssueKey,
    /// Upload the image under this key.
    PutBlob { key: String },
    /// Insert this movie record.
    InsertMovie(Movie),
    /// Append the movie to the movies of the user that matches the session,
    /// as one atomic update of the store.
    LinkOwner { filter: UserFilter, movie_id: String },
    /// Stop and reply.
    Finish(WriteOutcome),
}

pub ghost enum ActionV {
    FindUser(FilterV),
    FindTitle { title: Seq<char>, author: Seq<char> },
    IssueKey,
    PutBlob { key: Seq<char> },
    InsertMovie(MovieV),
    LinkOwner { filter: FilterV, movie_id: Seq<char> },
    Finish(WriteOutcome),
}

impl View for AddMovieAction {
    type V = ActionV;

    open spec fn view(&self) -> ActionV {
        match self {
            AddMovieAction::FindUser(f) => ActionV::FindUser(f@),
            AddMovieAction::FindTitle { title, author } => ActionV::FindTitle { title: title@, author: author@ },
            AddMovieAction::IssueKey => ActionV::IssueKey,
            AddMovieAction::PutBlob { key } => ActionV::PutBlob { key: key@ },
            AddMovieAction::InsertMovie(m) => ActionV::InsertMovie(m@),
            AddMovieAction::LinkOwner { filter, movie_id } => ActionV::LinkOwner { filter: filter@, movie_id: movie_id@ },
            AddMovieAction::Finish(o) => ActionV::Finish(*o),
        }
    }
}

/// The blob key made from a random text: the text with a `.png` extension.
pub open spec fn image_key_spec(stem: Seq<char>) -> Seq<char> {
    stem + ".png"@
}

/// A creation that has not yet asked anything of the stores.
pub open spec fn initial_spec(filter: FilterV, title: Seq<char>, author: Seq<char>) -> AddMovieV {
    AddMovieV { filter, title, author, stage: Stage::Authenticating, image_url: Seq::empty() }
}

/// Whether an event answers the action that a creation at `stage` asked for.
pub open spec fn event_fits(stage: Stage, e: EventV) -> bool {
    match (stage, e) {
        (Stage::Authenticating, EventV::UserFound(_)) => true,
        (Stage::CheckingTitle, EventV::TitleFound(_)) => true,
        (Stage::IssuingKey, EventV::KeyIssued(_)) => true,
        (Stage::Uploading, EventV::BlobWritten(_)) => true,
        (Stage::Inserting, EventV::MovieInserted(_)) => true,
        (Stage::Linking, EventV::OwnerLinked(_)) => true,
        _ => false,
    }
}

/// Ends a creation with `o`.
pub open spec fn finish_spec(s: AddMovieV, o: WriteOutcome) -> (AddMovieV, ActionV) {
    (AddMovieV { stage: Stage::Finished, ..s }, ActionV::Finish(o))
}

/// One step of a creation: the next state and action, given the reply to
/// the last action. Checks come before writes, so a refused creation has
/// written nothing; a failed upload has written nothing to the document
/// store; a failed insert leaves the uploaded image behind without a record.
pub open spec fn transition(s: AddMovieV, e: EventV) -> (AddMovieV, ActionV) {
    match e {
        EventV::UserFound(found) => match auth_outcome(s.filter, found) {
            Ok(_) => (
                AddMovieV { stage: Stage::CheckingTitle, ..s },
                ActionV::FindTitle { title: s.title, author: s.author },
            ),
            Err(err) => finish_spec(s, WriteOutcome::Aborted(err)),
        },
        EventV::TitleFound(found) => match found {
            Err(_) => finish_spec(s, WriteOutcome::Aborted(ApiError::Store)),
            Ok(true) => finish_spec(s, WriteOutcome::Aborted(ApiError::Conflict)),
            Ok(false) => (AddMovieV { stage: Stage::IssuingKey, ..s }, ActionV::IssueKey),
        },
        EventV::KeyIssued(stem) => (
            AddMovieV { stage: Stage::Uploading, image_url: image_key_spec(stem), ..s },
            ActionV::PutBlob { key: image_key_spec(stem) },
        ),
        EventV::BlobWritten(written) => match written {
            Err(_) => finish_spec(s, WriteOutcome::Aborted(ApiError::Blob)),
            Ok(_) => (
                AddMovieV { stage: Stage::Inserting, ..s },
                ActionV::InsertMovie(new_movie_spec(s.title, s.author, s.image_url)),
            ),
        },
        EventV::MovieInserted(inserted) => match inserted {
            Err(_) => finish_spec(s, WriteOutcome::Aborted(ApiError::Store)),
            Ok(id) => (
                AddMovieV { stage: Stage::Linking, ..s },
                ActionV::LinkOwner { filter: s.filter, movie_id: id },
            ),
        },
        EventV::OwnerLinked(linked) => match linked {
            Err(_) => finish_spec(s, WriteOutcome::CommittedUnlinked),
            Ok(_) => finish_spec(s, WriteOutcome::Committed),
        },
    }
}

/// The blob key for an image, from a random text.
pub fn image_key(stem: &str) -> (r: String)
    ensures
        r@ == image_key_spec(stem@),
{
    let r = stem.to_owned();
    r.concat(".png")
}

/// The reply for how a creation ended: `{"message":"Movie added"}` when the
/// movie was stored, linked or not; the failure otherwise.
pub fn outcome_response(o: WriteOutcome) -> (r: JsonResponse)
    ensures
        r.cookies@.len() == 0,
        match o {
            WriteOutcome::Aborted(e) => r.status == status_of(e) && r.json@ == error_json(e),
            _ => r.status == 200 && r.json@ == object_json_spec("message"@, "Movie added"@),
        },
{
    match o {
        WriteOutcome::Aborted(e) => error_response(e),
        _ => ok_response("message", "Movie added"),
    }
}

impl AddMovie {
    /// Starts creating a movie for the session `filter`; the first action
    /// looks the session's user up.
    pub fn start(filter: UserFilter, title: String, author: String) -> (r: (AddMovie, AddMovieAction))
        ensures
            r.0@ == initial_spec(filter@, title@, author@),
            r.1@ == ActionV::FindUser(filter@),
    {
        let action = AddMovieAction::FindUser(UserFilter { name: filter.name.clone(), token: filter.token.clone() });
        let state = AddMovie { filter, title, author, stage: Stage::Authenticating, image_url: String::new() };
        (state, action)
    }

    /// Whether `ev` answers the action that this creation asked for last.
    pub fn accepts(&self, ev: &AddMovieEvent) -> (r: bool)
        ensures
            r == event_fits(self.stage, ev@),
    {
        match (self.stage, ev) {
            (Stage::Authenticating, AddMovieEvent::UserFound(_)) => true,
            (Stage::CheckingTitle, AddMovieEvent::TitleFound(_)) => true,
            (Stage::IssuingKey, AddMovieEvent::KeyIssued(_)) => true,
            (Stage::Uploading, AddMovieEvent::BlobWritten(_)) => true,
            (Stage::Inserting, AddMovieEvent::MovieInserted(_)) => true,
            (Stage::Linking, AddMovieEvent::OwnerLinked(_)) => true,
            _ => false,
        }
    }

    fn finish(&mut self, o: WriteOutcome) -> (a: AddMovieAction)
        ensures
            (final(self)@, a@) == finish_spec(old(self)@, o),
    {
        self.stage = Stage::Finished;
        AddMovieAction::Finish(o)
    }

    /// Takes the reply to the last action and returns the next action.
    pub fn step(&mut self, ev: AddMovieEvent) -> (a: AddMovieAction)
        requires
            event_fits(old(self).stage, ev@),
        ensures
            (final(self)@, a@) == transition(old(self)@, ev@),
    {
        match ev {
            AddMovieEvent::UserFound(found) => {
                match authenticate(&self.filter, found) {
                    Ok(_) => {
                        self.stage = Stage::CheckingTitle;
                        AddMovieAction::FindTitle { title: self.title.clone(), author: self.author.clone() }
                    },
                    Err(err) => self.finish(WriteOutcome::Aborted(err)),
                }
            },
            AddMovieEvent::TitleFound(found) => {
                match found {
                    Err(_) => self.finish(WriteOutcome::Aborted(ApiError::Store)),
                    Ok(true) => self.finish(WriteOutcome::Aborted(ApiError::Conflict)),
                    Ok(false) => {
                        self.stage = Stage::IssuingKey;
                        AddMovieAction::IssueKey
                    },
                }
            },
            AddMovieEvent::KeyIssued(stem) => {
                let key = image_key(stem.as_str());
                self.image_url = image_key(stem.as_str());
                self.stage = Stage::Uploading;
                AddMovieAction::PutBlob { key }
            },
            AddMovieEvent::BlobWritten(written) => {
                match written {
                    Err(_) => self.finish(WriteOutcome::Aborted(ApiError::Blob)),
                    Ok(_) => {
                        self.stage = Stage::Inserting;
                        AddMovieAction::InsertMovie(
                            new_movie(self.title.as_str(), self.author.as_str(), self.image_url.as_str()),
                        )
                    },
                }
            },
            AddMovieEvent::MovieInserted(inserted) => {
                match inserted {
                    Err(_) => self.finish(WriteOutcome::Aborted(ApiError::Store)),
                    Ok(id) => {
                        self.stage = Stage::Linking;
                        AddMovieAction::LinkOwner {
                            filter: UserFilter { name: self.filter.name.clone(), token: self.filter.token.clone() },
                            movie_id: id,
                        }
                    },
                }
            },
            AddMovieEvent::OwnerLinked(linked) => {
                match linked {
                    Err(_) => self.finish(WriteOutcome::CommittedUnlinked),
                    Ok(_) => self.finish(WriteOutcome::Committed),
                }
            },
        }
    }
}

} // verus!
