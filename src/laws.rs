use vstd::prelude::*;
use crate::accounts::{
    login_outcome, register_transition, RegisterActionV, RegisterEventV, RegisterStage, RegistrationV,
};
use crate::guard::auth_outcome;
use crate::model::{new_user_spec, user_matches, ApiError, FilterV, MovieV, UserV};
use crate::reader::catalog_spec;
use crate::writer::{image_key_spec, initial_spec, transition, ActionV, AddMovieV, EventV, WriteOutcome};

verus! {

// A model of the two stores, for stating what sequences of operations do.
// Each operation of the library decides from the replies of the stores; the
// functions below say what a store that does not fail replies and how it
// changes, so that the effect of a whole operation can be followed.

/// The contents of both stores: users and movies of the document store (each
/// movie with its identifier) and the keys of the blob store.
pub ghost struct Db {
    pub users: Seq<UserV>,
    pub movies: Seq<(Seq<char>, MovieV)>,
    pub blobs: Set<Seq<char>>,
}

/// The first stored user that matches a session, as a find-one by filter
/// returns it.
pub open spec fn find_user(users: Seq<UserV>, f: FilterV) -> Option<UserV>
    decreases users.len(),
{
    if users.len() == 0 {
        None
    } else if user_matches(users[0], f) {
        Some(users[0])
    } else {
        find_user(users.drop_first(), f)
    }
}

/// The first stored user with this name and password.
pub open spec fn find_login(users: Seq<UserV>, name: Seq<char>, password: Seq<char>) -> Option<UserV>
    decreases users.len(),
{
    if users.len() == 0 {
        None
    } else if users[0].name == name && users[0].password == password {
        Some(users[0])
    } else {
        find_login(users.drop_first(), name, password)
    }
}

pub open spec fn name_taken(users: Seq<UserV>, name: Seq<char>) -> bool {
    exists|i: int| 0 <= i < users.len() && #[trigger] users[i].name == name
}

pub open spec fn title_taken(movies: Seq<(Seq<char>, MovieV)>, title: Seq<char>, author: Seq<char>) -> bool {
    exists|i: int| 0 <= i < movies.len() && #[trigger] movies[i].1.title == title && movies[i].1.author == author
}

/// A user with a movie added to their movies; adding one that is there
/// already changes nothing.
pub open spec fn add_owned(u: UserV, id: Seq<char>) -> UserV {
    if u.created_movies.contains(id) {
        u
    } else {
        UserV { created_movies: u.created_movies.push(id), ..u }
    }
}

/// The atomic set-append to the movies of the first user that matches a
/// session.
pub open spec fn link_owner(users: Seq<UserV>, f: FilterV, id: Seq<char>) -> Seq<UserV>
    decreases users.len(),
{
    if users.len() == 0 {
        users
    } else if user_matches(users[0], f) {
        users.update(0, add_owned(users[0], id))
    } else {
        seq![users[0]] + link_owner(users.drop_first(), f, id)
    }
}

/// What stores that do not fail reply to an action of a movie creation,
/// where `stem` is the random text drawn and `id` the identifier that the
/// insert assigns.
pub open spec fn store_reply(db: Db, a: ActionV, stem: Seq<char>, id: Seq<char>) -> EventV {
    match a {
        ActionV::FindUser(f) => EventV::UserFound(Ok(find_user(db.users, f))),
        ActionV::FindTitle { title, author } => EventV::TitleFound(Ok(title_taken(db.movies, title, author))),
        ActionV::IssueKey => EventV::KeyIssued(stem),
        ActionV::PutBlob { .. } => EventV::BlobWritten(Ok(())),
        ActionV::InsertMovie(_) => EventV::MovieInserted(Ok(id)),
        _ => EventV::OwnerLinked(Ok(())),
    }
}

/// How an action of a movie creation changes stores that do not fail.
pub open spec fn store_effect(db: Db, a: ActionV, id: Seq<char>) -> Db {
    match a {
        ActionV::PutBlob { key } => Db { blobs: db.blobs.insert(key), ..db },
        ActionV::InsertMovie(m) => Db { movies: db.movies.push((id, m)), ..db },
        ActionV::LinkOwner { filter, movie_id } => Db { users: link_owner(db.users, filter, movie_id), ..db },
        _ => db,
    }
}

/// Runs a movie creation against stores that do not fail, for at most
/// `fuel` steps: the stores, the state and the last action.
pub open spec fn run(db: Db, s: AddMovieV, a: ActionV, stem: Seq<char>, id: Seq<char>, fuel: nat) -> (Db, AddMovieV, ActionV)
    decreases fuel,
{
    if fuel == 0 || a is Finish {
        (db, s, a)
    } else {
        let next = transition(s, store_reply(db, a, stem, id));
        run(store_effect(db, a, id), next.0, next.1, stem, id, (fuel - 1) as nat)
    }
}

/// A whole movie creation against stores that do not fail.
pub open spec fn create_movie(db: Db, f: FilterV, title: Seq<char>, author: Seq<char>, stem: Seq<char>, id: Seq<char>) -> (Db, AddMovieV, ActionV) {
    run(db, initial_spec(f, title, author), ActionV::FindUser(f), stem, id, 6)
}

/// Registration against a store that does not fail: the stores afterwards
/// and the last action, which hands back the token or the failure.
pub open spec fn register(db: Db, name: Seq<char>, password: Seq<char>, token: Seq<char>) -> (Db, RegisterActionV) {
    let s0 = RegistrationV { name, password, token, stage: RegisterStage::CheckingName };
    let first = register_transition(s0, RegisterEventV::NameFound(Ok(name_taken(db.users, name))));
    match first.1 {
        RegisterActionV::InsertUser(u) => (
            Db { users: db.users.push(u), ..db },
            register_transition(first.0, RegisterEventV::UserInserted(Ok(()))).1,
        ),
        _ => (db, first.1),
    }
}

/// Signing in against a store that does not fail.
pub open spec fn login(db: Db, name: Seq<char>, password: Seq<char>) -> Result<Seq<char>, ApiError> {
    login_outcome(name, password, Ok(find_login(db.users, name, password)))
}

proof fn lemma_find_user_matches(users: Seq<UserV>, f: FilterV)
    ensures
        find_user(users, f) matches Some(u) ==> user_matches(u, f),
        find_user(users, f) is None <==> forall|i: int| 0 <= i < users.len() ==> !user_matches(#[trigger] users[i], f),
    decreases users.len(),
{
    if users.len() > 0 {
        lemma_find_user_matches(users.drop_first(), f);
        assert forall|i: int| 1 <= i < users.len() implies users[i] == #[trigger] users.drop_first()[i - 1] by {}
        if !user_matches(users[0], f) && find_user(users, f) is None {
            assert forall|i: int| 0 <= i < users.len() implies !user_matches(#[trigger] users[i], f) by {
                if i > 0 {
                    assert(users.drop_first()[i - 1] == users[i]);
                }
            }
        }
    }
}

proof fn lemma_find_login_after_push(users: Seq<UserV>, u: UserV)
    requires
        !name_taken(users, u.name),
    ensures
        find_login(users.push(u), u.name, u.password) == Some(u),
    decreases users.len(),
{
    if users.len() == 0 {
        assert(users.push(u)[0] == u);
    } else {
        let rest = users.drop_first();
        assert(users.push(u).drop_first() =~= rest.push(u));
        assert(users[0].name != u.name) by {
            assert(users[0] == users[0]);
        }
        assert(!name_taken(rest, u.name)) by {
            assert forall|i: int| 0 <= i < rest.len() implies #[trigger] rest[i].name != u.name by {
                assert(rest[i] == users[i + 1]);
            }
        }
        lemma_find_login_after_push(rest, u);
    }
}

proof fn lemma_link_owner(users: Seq<UserV>, f: FilterV, id: Seq<char>)
    requires
        find_user(users, f) is Some,
    ensures
        find_user(link_owner(users, f, id), f) == Some(add_owned(find_user(users, f)->0, id)),
    decreases users.len(),
{
    let l = link_owner(users, f, id);
    if user_matches(users[0], f) {
        assert(l[0] == add_owned(users[0], id));
    } else {
        let rest = users.drop_first();
        lemma_link_owner(rest, f, id);
        assert(l.drop_first() =~= link_owner(rest, f, id));
        assert(l[0] == users[0]);
    }
}

/// Creating a movie whose title and author are new, for a session that
/// names a stored user, ends in success; afterwards the listing of all
/// movies holds exactly one entry with that title and author, its image key
/// is not empty, and the blob store holds an image under that key.
pub proof fn lemma_created_movie_listed_once(
    db: Db,
    f: FilterV,
    title: Seq<char>,
    author: Seq<char>,
    stem: Seq<char>,
    id: Seq<char>,
)
    requires
        find_user(db.users, f) is Some,
        !title_taken(db.movies, title, author),
    ensures
        ({
            let (db2, _s, a) = create_movie(db, f, title, author, stem, id);
            let listing = catalog_spec(db2.movies);
            &&& a == ActionV::Finish(WriteOutcome::Committed)
            &&& exists|i: int|
                0 <= i < listing.len() && #[trigger] listing[i].movie.title == title && listing[i].movie.author == author
                    && listing[i].movie.image_url.len() > 0 && db2.blobs.contains(listing[i].movie.image_url)
            &&& forall|i: int, j: int|
                0 <= i < listing.len() && 0 <= j < listing.len() && #[trigger] listing[i].movie.title == title
                    && listing[i].movie.author == author && #[trigger] listing[j].movie.title == title
                    && listing[j].movie.author == author ==> i == j
        }),
{
    lemma_find_user_matches(db.users, f);
    reveal_with_fuel(run, 7);
    let (db2, _s, a) = create_movie(db, f, title, author, stem, id);
    let listing = catalog_spec(db2.movies);
    let n = db.movies.len() as int;
    assert(db2.movies == db.movies.push((id, MovieV { title, author, image_url: image_key_spec(stem), num_ratings: 0 })));
    assert(listing[n].movie.title == title);
    reveal_strlit(".png");
    assert(listing[n].movie.image_url.len() > 0);
    assert forall|i: int| 0 <= i < listing.len() && #[trigger] listing[i].movie.title == title
        && listing[i].movie.author == author implies i == n by {
        if i < n {
            assert(db.movies[i].1.title == title);
        }
    }
}

/// Creating a movie whose title and author are stored already, for a
/// session that names a stored user, ends in `Conflict` and changes
/// neither store.
pub proof fn lemma_duplicate_movie_refused(
    db: Db,
    f: FilterV,
    title: Seq<char>,
    author: Seq<char>,
    stem: Seq<char>,
    id: Seq<char>,
)
    requires
        find_user(db.users, f) is Some,
        title_taken(db.movies, title, author),
    ensures
        ({
            let (db2, _s, a) = create_movie(db, f, title, author, stem, id);
            &&& a == ActionV::Finish(WriteOutcome::Aborted(ApiError::Conflict))
            &&& db2 == db
        }),
{
    lemma_find_user_matches(db.users, f);
    reveal_with_fuel(run, 7);
}

/// Authentication does not tell a wrong name from a wrong token: every
/// session that names no stored user, whichever of its fields is wrong,
/// gets the same `Unauthorized`.
pub proof fn lemma_unauthorized_indistinct(db: Db, f1: FilterV, f2: FilterV)
    requires
        forall|i: int| 0 <= i < db.users.len() ==> !user_matches(#[trigger] db.users[i], f1),
        forall|i: int| 0 <= i < db.users.len() ==> !user_matches(#[trigger] db.users[i], f2),
    ensures
        auth_outcome(f1, Ok(find_user(db.users, f1))) == Err::<UserV, ApiError>(ApiError::Unauthorized),
        auth_outcome(f1, Ok(find_user(db.users, f1))) == auth_outcome(f2, Ok(find_user(db.users, f2))),
{
    lemma_find_user_matches(db.users, f1);
    lemma_find_user_matches(db.users, f2);
}

/// Signing in after registering hands back the token issued at
/// registration: tokens are not rotated.
pub proof fn lemma_login_returns_registered_token(db: Db, name: Seq<char>, password: Seq<char>, token: Seq<char>)
    requires
        !name_taken(db.users, name),
    ensures
        register(db, name, password, token).1 == RegisterActionV::Finish(Ok(token)),
        login(register(db, name, password, token).0, name, password) == Ok::<Seq<char>, ApiError>(token),
{
    lemma_find_login_after_push(db.users, new_user_spec(name, password, token));
}

/// Registering under a taken name fails and leaves the stores, and so the
/// stored user's password and token, as they were.
pub proof fn lemma_taken_name_refused(db: Db, name: Seq<char>, password: Seq<char>, token: Seq<char>)
    requires
        name_taken(db.users, name),
    ensures
        register(db, name, password, token).1 == RegisterActionV::Finish(Err(ApiError::NameTaken)),
        register(db, name, password, token).0 == db,
{
}

/// Two movie creations by one user keep both owner links, in whichever
/// order their links reach the store.
pub proof fn lemma_concurrent_links_kept(users: Seq<UserV>, f: FilterV, id1: Seq<char>, id2: Seq<char>)
    requires
        find_user(users, f) is Some,
    ensures
        find_user(link_owner(link_owner(users, f, id1), f, id2), f) matches Some(u)
            && u.created_movies.contains(id1) && u.created_movies.contains(id2),
{
    lemma_link_owner(users, f, id1);
    let once = link_owner(users, f, id1);
    lemma_link_owner(once, f, id2);
    let u0 = find_user(users, f)->0;
    let u1 = add_owned(u0, id1);
    assert(u1.created_movies.contains(id1)) by {
        if !u0.created_movies.contains(id1) {
            assert(u1.created_movies[u0.created_movies.len() as int] == id1);
        }
    }
    let u2 = add_owned(u1, id2);
    if !u1.created_movies.contains(id2) {
        let k = choose|k: int| 0 <= k < u1.created_movies.len() && u1.created_movies[k] == id1;
        assert(u2.created_movies[k] == id1);
        assert(u2.created_movies[u1.created_movies.len() as int] == id2);
    }
}

} // verus!
