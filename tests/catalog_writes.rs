use movie_catalog::accounts::{login_token, session_reply, RegisterAction, RegisterEvent, RegisterStage, Registration};
use movie_catalog::guard::authenticate;
use movie_catalog::model::{new_user, user_filter, ApiError, BlobError, Movie, StoreError, User, UserFilter};
use movie_catalog::reader::{list_movies, owned_movie_ids};
use movie_catalog::session::issue_token;
use movie_catalog::writer::{image_key, outcome_response, AddMovie, AddMovieAction, AddMovieEvent, Stage, WriteOutcome};

/// Stores kept in memory, answering as the real ones would.
struct Stores {
    users: Vec<User>,
    movies: Vec<(String, Movie)>,
    blobs: Vec<String>,
    next_id: u32,
}

impl Stores {
    fn new() -> Self {
        Stores { users: Vec::new(), movies: Vec::new(), blobs: Vec::new(), next_id: 0 }
    }

    fn find_user(&self, f: &UserFilter) -> Option<User> {
        self.users.iter().find(|u| u.name == f.name && u.token == f.token).map(|u| copy_user(u))
    }

    fn register(&mut self, name: &str, password: &str) -> Result<String, ApiError> {
        let (mut r, mut a) = Registration::start(name.to_string(), password.to_string(), issue_token());
        loop {
            let ev = match a {
                RegisterAction::FindName(n) => RegisterEvent::NameFound(Ok(self.users.iter().any(|u| u.name == n))),
                RegisterAction::InsertUser(u) => {
                    self.users.push(u);
                    RegisterEvent::UserInserted(Ok(()))
                }
                RegisterAction::Finish(t) => return t,
            };
            assert!(r.accepts(&ev));
            a = r.step(ev);
        }
    }

    fn login(&self, name: &str, password: &str) -> Result<String, ApiError> {
        let found = self.users.iter().find(|u| u.name == name && u.password == password).map(|u| copy_user(u));
        login_token(&name.to_string(), &password.to_string(), Ok(found))
    }

    /// Answers one action, or hands back the outcome once the creation has finished.
    fn answer(&mut self, a: AddMovieAction) -> Result<AddMovieEvent, WriteOutcome> {
        Ok(match a {
            AddMovieAction::FindUser(f) => AddMovieEvent::UserFound(Ok(self.find_user(&f))),
            AddMovieAction::FindTitle { title, author } => AddMovieEvent::TitleFound(Ok(self
                .movies
                .iter()
                .any(|(_, m)| m.title == title && m.author == author))),
            AddMovieAction::IssueKey => AddMovieEvent::KeyIssued(issue_token()),
            AddMovieAction::PutBlob { key } => {
                self.blobs.push(key);
                AddMovieEvent::BlobWritten(Ok(()))
            }
            AddMovieAction::InsertMovie(m) => {
                self.next_id += 1;
                let id = format!("id{}", self.next_id);
                self.movies.push((id.clone(), m));
                AddMovieEvent::MovieInserted(Ok(id))
            }
            AddMovieAction::LinkOwner { filter, movie_id } => {
                if let Some(u) = self.users.iter_mut().find(|u| u.name == filter.name && u.token == filter.token) {
                    if !u.created_movies.contains(&movie_id) {
                        u.created_movies.push(movie_id);
                    }
                }
                AddMovieEvent::OwnerLinked(Ok(()))
            }
            AddMovieAction::Finish(o) => return Err(o),
        })
    }

    fn create(&mut self, name: &str, token: &str, title: &str, author: &str) -> WriteOutcome {
        let (mut w, mut a) = AddMovie::start(user_filter(name, token), title.to_string(), author.to_string());
        loop {
            match self.answer(a) {
                Ok(ev) => {
                    assert!(w.accepts(&ev));
                    a = w.step(ev);
                }
                Err(o) => return o,
            }
        }
    }
}

fn copy_user(u: &User) -> User {
    User {
        name: u.name.clone(),
        password: u.password.clone(),
        token: u.token.clone(),
        created_movies: u.created_movies.clone(),
    }
}

#[test]
fn register_create_and_list_scenario() {
    let mut s = Stores::new();
    let token = s.register("alice", "p1").unwrap();
    let reply = session_reply("alice", Ok(token.clone()), 1_000);
    assert_eq!(reply.status, 200);
    assert_eq!(reply.cookies[0].value, "alice");
    assert_eq!(reply.cookies[1].value, token);

    let outcome = s.create("alice", &token, "T", "A");
    assert_eq!(outcome, WriteOutcome::Committed);
    let r = outcome_response(outcome);
    assert_eq!(r.status, 200);
    assert_eq!(r.json, "{\"message\":\"Movie added\"}");

    let all = list_movies(&s.movies);
    assert_eq!(all.len(), 1);
    assert_eq!(all[0].title, "T");
    assert_eq!(all[0].author, "A");
    assert_eq!(all[0].num_ratings, 0);
    assert!(all[0].image_url.ends_with(".png"));

    let f = user_filter("alice", &token);
    let ids = owned_movie_ids(&f, Ok(s.find_user(&f))).unwrap();
    assert_eq!(ids, vec![all[0].id.clone()]);
    let owned: Vec<(String, Movie)> = s
        .movies
        .iter()
        .filter(|(id, _)| ids.contains(id))
        .map(|(id, m)| {
            (id.clone(), Movie { title: m.title.clone(), author: m.author.clone(), image_url: m.image_url.clone(), num_ratings: m.num_ratings })
        })
        .collect();
    let mine = list_movies(&owned);
    assert_eq!(mine.len(), 1);
    assert_eq!(mine[0].title, "T");
}

#[test]
fn new_title_is_listed_once_with_a_key() {
    let mut s = Stores::new();
    let token = s.register("bob", "pw").unwrap();
    assert_eq!(s.create("bob", &token, "Other", "X"), WriteOutcome::Committed);
    assert_eq!(s.create("bob", &token, "T", "A"), WriteOutcome::Committed);
    let all = list_movies(&s.movies);
    let hits: Vec<_> = all.iter().filter(|m| m.title == "T" && m.author == "A").collect();
    assert_eq!(hits.len(), 1);
    assert_eq!(hits[0].image_url.len(), 40);
    assert_eq!(s.blobs.len(), 2);
}

#[test]
fn duplicate_title_is_a_conflict_without_writes() {
    let mut s = Stores::new();
    let token = s.register("bob", "pw").unwrap();
    assert_eq!(s.create("bob", &token, "T", "A"), WriteOutcome::Committed);
    let outcome = s.create("bob", &token, "T", "A");
    assert_eq!(outcome, WriteOutcome::Aborted(ApiError::Conflict));
    assert_eq!(outcome_response(outcome).status, 409);
    assert_eq!(s.movies.len(), 1);
    assert_eq!(s.blobs.len(), 1);
    // Same title by another author is a different movie.
    assert_eq!(s.create("bob", &token, "T", "B"), WriteOutcome::Committed);
}

#[test]
fn bad_session_writes_nothing() {
    let mut s = Stores::new();
    let token = s.register("bob", "pw").unwrap();
    assert_eq!(s.create("bob", "not-the-token", "T", "A"), WriteOutcome::Aborted(ApiError::Unauthorized));
    assert_eq!(s.create("eve", &token, "T", "A"), WriteOutcome::Aborted(ApiError::Unauthorized));
    assert!(s.movies.is_empty());
    assert!(s.blobs.is_empty());
    assert_eq!(outcome_response(WriteOutcome::Aborted(ApiError::Unauthorized)).status, 401);
}

#[test]
fn register_then_login_gives_the_same_token() {
    let mut s = Stores::new();
    let token = s.register("alice", "p1").unwrap();
    assert_eq!(s.login("alice", "p1").unwrap(), token);
    assert_eq!(s.login("alice", "p1").unwrap(), token);
    assert_eq!(s.login("alice", "wrong").err(), Some(ApiError::WrongCredentials));
}

#[test]
fn registering_a_taken_name_changes_nothing() {
    let mut s = Stores::new();
    let token = s.register("alice", "p1").unwrap();
    assert_eq!(s.register("alice", "p2").err(), Some(ApiError::NameTaken));
    assert_eq!(s.users.len(), 1);
    assert_eq!(s.users[0].password, "p1");
    assert_eq!(s.users[0].token, token);
}

#[test]
fn interleaved_creations_keep_both_links() {
    let mut s = Stores::new();
    let token = s.register("alice", "p1").unwrap();
    let (mut w1, a1) = AddMovie::start(user_filter("alice", &token), "T1".to_string(), "A".to_string());
    let (mut w2, a2) = AddMovie::start(user_filter("alice", &token), "T2".to_string(), "A".to_string());
    let (mut a1, mut a2) = (a1, a2);
    let mut done1 = None;
    let mut done2 = None;
    while done1.is_none() || done2.is_none() {
        if done1.is_none() {
            match s.answer(a1) {
                Ok(ev) => a1 = w1.step(ev),
                Err(o) => {
                    done1 = Some(o);
                    a1 = AddMovieAction::Finish(o);
                }
            }
        }
        if done2.is_none() {
            match s.answer(a2) {
                Ok(ev) => a2 = w2.step(ev),
                Err(o) => {
                    done2 = Some(o);
                    a2 = AddMovieAction::Finish(o);
                }
            }
        }
    }
    assert_eq!(done1, Some(WriteOutcome::Committed));
    assert_eq!(done2, Some(WriteOutcome::Committed));
    assert_eq!(s.users[0].created_movies.len(), 2);
}

#[test]
fn store_and_blob_failures_abort() {
    let f = user_filter("alice", "t");
    let user = new_user("alice", "p", "t");
    let (mut w, _) = AddMovie::start(f, "T".to_string(), "A".to_string());
    assert!(matches!(w.step(AddMovieEvent::UserFound(Ok(Some(user)))), AddMovieAction::FindTitle { .. }));
    assert!(matches!(w.step(AddMovieEvent::TitleFound(Ok(false))), AddMovieAction::IssueKey));
    match w.step(AddMovieEvent::KeyIssued("abc".to_string())) {
        AddMovieAction::PutBlob { key } => assert_eq!(key, "abc.png"),
        _ => panic!("expected an upload"),
    }
    assert!(matches!(w.step(AddMovieEvent::BlobWritten(Err(BlobError))), AddMovieAction::Finish(WriteOutcome::Aborted(ApiError::Blob))));
    assert_eq!(w.stage, Stage::Finished);

    let (mut w, _) = AddMovie::start(user_filter("alice", "t"), "T".to_string(), "A".to_string());
    assert!(matches!(w.step(AddMovieEvent::UserFound(Err(StoreError))), AddMovieAction::Finish(WriteOutcome::Aborted(ApiError::Store))));

    let (mut w, _) = AddMovie::start(user_filter("alice", "t"), "T".to_string(), "A".to_string());
    w.step(AddMovieEvent::UserFound(Ok(Some(new_user("alice", "p", "t")))));
    assert!(matches!(w.step(AddMovieEvent::TitleFound(Err(StoreError))), AddMovieAction::Finish(WriteOutcome::Aborted(ApiError::Store))));
}

#[test]
fn insert_failure_and_unlinked_commit() {
    let (mut w, _) = AddMovie::start(user_filter("alice", "t"), "T".to_string(), "A".to_string());
    w.step(AddMovieEvent::UserFound(Ok(Some(new_user("alice", "p", "t")))));
    w.step(AddMovieEvent::TitleFound(Ok(false)));
    w.step(AddMovieEvent::KeyIssued("k".to_string()));
    match w.step(AddMovieEvent::BlobWritten(Ok(()))) {
        AddMovieAction::InsertMovie(m) => {
            assert_eq!(m.title, "T");
            assert_eq!(m.author, "A");
            assert_eq!(m.image_url, "k.png");
            assert_eq!(m.num_ratings, 0);
        }
        _ => panic!("expected an insert"),
    }
    let mut w2 = AddMovie { filter: user_filter("alice", "t"), title: "T".to_string(), author: "A".to_string(), stage: Stage::Inserting, image_url: "k.png".to_string() };
    assert!(matches!(w2.step(AddMovieEvent::MovieInserted(Err(StoreError))), AddMovieAction::Finish(WriteOutcome::Aborted(ApiError::Store))));

    match w.step(AddMovieEvent::MovieInserted(Ok("id7".to_string()))) {
        AddMovieAction::LinkOwner { filter, movie_id } => {
            assert_eq!(filter.name, "alice");
            assert_eq!(filter.token, "t");
            assert_eq!(movie_id, "id7");
        }
        _ => panic!("expected a link"),
    }
    let last = w.step(AddMovieEvent::OwnerLinked(Err(StoreError)));
    assert!(matches!(last, AddMovieAction::Finish(WriteOutcome::CommittedUnlinked)));
    let r = outcome_response(WriteOutcome::CommittedUnlinked);
    assert_eq!(r.status, 200);
    assert_eq!(r.json, "{\"message\":\"Movie added\"}");
    assert!(!w.accepts(&AddMovieEvent::OwnerLinked(Ok(()))));
}

#[test]
fn image_key_appends_the_extension() {
    assert_eq!(image_key("abc"), "abc.png");
}

#[test]
fn owner_listing_needs_a_valid_session() {
    let f = user_filter("alice", "t");
    assert_eq!(owned_movie_ids(&f, Ok(None)).err(), Some(ApiError::Unauthorized));
    assert_eq!(owned_movie_ids(&f, Err(StoreError)).err(), Some(ApiError::Store));
    let mut u = new_user("alice", "p", "t");
    u.created_movies.push("m1".to_string());
    assert_eq!(owned_movie_ids(&f, Ok(Some(u))).unwrap(), vec!["m1".to_string()]);
    assert_eq!(authenticate(&f, Ok(None)).err(), Some(ApiError::Unauthorized));
}

#[test]
fn registration_steps_and_failures() {
    let (mut r, a) = Registration::start("alice".to_string(), "p1".to_string(), "tok".to_string());
    assert!(matches!(a, RegisterAction::FindName(ref n) if n == "alice"));
    match r.step(RegisterEvent::NameFound(Ok(false))) {
        RegisterAction::InsertUser(u) => {
            assert_eq!(u.name, "alice");
            assert_eq!(u.password, "p1");
            assert_eq!(u.token, "tok");
            assert!(u.created_movies.is_empty());
        }
        _ => panic!("expected an insert"),
    }
    assert!(matches!(r.step(RegisterEvent::UserInserted(Err(StoreError))), RegisterAction::Finish(Err(ApiError::Store))));
    assert_eq!(r.stage, RegisterStage::Finished);

    let (mut r, _) = Registration::start("alice".to_string(), "p1".to_string(), "tok".to_string());
    assert!(matches!(r.step(RegisterEvent::NameFound(Err(StoreError))), RegisterAction::Finish(Err(ApiError::Store))));
    let (mut r, _) = Registration::start("alice".to_string(), "p1".to_string(), "tok".to_string());
    assert!(matches!(r.step(RegisterEvent::NameFound(Ok(true))), RegisterAction::Finish(Err(ApiError::NameTaken))));
    assert!(!r.accepts(&RegisterEvent::UserInserted(Ok(()))));
}
