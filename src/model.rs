use vstd::prelude::*;

verus! {

/// The pair that names a session: the user's name and the bearer token
/// issued to them. A stored user matches it when both fields are equal.
pub struct UserFilter {
    pub name: String,
    pub token: String,
}

pub ghost struct FilterV {
    pub name: Seq<char>,
    pub token: Seq<char>,
}

impl View for UserFilter {
    type V = FilterV;

    open spec fn view(&self) -> FilterV {
        FilterV { name: self.name@, token: self.token@ }
    }
}

/// A user record of the document store.
pub struct User {
    pub name: String,
    pub password: String,
    pub token: String,
    /// Identifiers of the movies this user created.
    pub created_movies: Vec<String>,
}

pub ghost struct UserV {
    pub name: Seq<char>,
    pub password: Seq<char>,
    pub token: Seq<char>,
    pub created_movies: Seq<Seq<char>>,
}

impl View for User {
    type V = UserV;

    open spec fn view(&self) -> UserV {
        UserV {
            name: self.name@,
            password: self.password@,
            token: self.token@,
            created_movies: self.created_movies@.map_values(|m: String| m@),
        }
    }
}

/// A movie record of the document store. Its average rating is zero when
/// created and no operation changes it, so it is not carried here.
pub struct Movie {
    pub title: String,
    pub author: String,
    pub image_url: String,
    pub num_ratings: u32,
}

pub ghost struct MovieV {
    pub title: Seq<char>,
    pub author: Seq<char>,
    pub image_url: Seq<char>,
    pub num_ratings: nat,
}

impl View for Movie {
    type V = MovieV;

    open spec fn view(&self) -> MovieV {
        MovieV {
            title: self.title@,
            author: self.author@,
            image_url: self.image_url@,
            num_ratings: self.num_ratings as nat,
        }
    }
}

/// A movie as it is listed: the stored record with the identifier that the
/// store assigned to it.
pub struct MovieView {
    pub id: String,
    pub title: String,
    pub author: String,
    pub image_url: String,
    pub num_ratings: u32,
}

pub ghost struct MovieViewV {
    pub id: Seq<char>,
    pub movie: MovieV,
}

impl View for MovieView {
    type V = MovieViewV;

    open spec fn view(&self) -> MovieViewV {
        MovieViewV {
            id: self.id@,
            movie: MovieV {
                title: self.title@,
                author: self.author@,
                image_url: self.image_url@,
                num_ratings: self.num_ratings as nat,
            },
        }
    }
}

/// A failed call into the document store (connectivity, timeout, a refused
/// write).
#[derive(PartialEq, Eq, Structural, Clone, Copy, Debug)]
pub struct StoreError;

/// A failed call into the blob store.
#[derive(PartialEq, Eq, Structural, Clone, Copy, Debug)]
pub struct BlobError;

/// What a caller is told when an operation does not succeed.
#[derive(PartialEq, Eq, Structural, Clone, Copy, Debug)]
pub enum ApiError {
    /// The session does not name a stored user; which of its fields was wrong
    /// is not told.
    Unauthorized,
    /// No user has this name and password.
    WrongCredentials,
    /// Registration under a name that is already taken.
    NameTaken,
    /// A movie with the same title and author exists.
    Conflict,
    /// The document store failed.
    Store,
    /// The blob store failed.
    Blob,
    /// The requested resource key is empty.
    NotFound,
}

/// A stored user matches a session when its name and its token are the
/// session's.
pub open spec fn user_matches(u: UserV, f: FilterV) -> bool {
    u.name == f.name && u.token == f.token
}

/// The record that registration stores for a new user.
pub open spec fn new_user_spec(name: Seq<char>, password: Seq<char>, token: Seq<char>) -> UserV {
    UserV { name, password, token, created_movies: Seq::empty() }
}

/// The record that the catalog writer stores for a new movie.
pub open spec fn new_movie_spec(title: Seq<char>, author: Seq<char>, image_url: Seq<char>) -> MovieV {
    MovieV { title, author, image_url, num_ratings: 0 }
}

/// Builds the filter that identifies a session.
pub fn user_filter(name: &str, token: &str) -> (r: UserFilter)
    ensures
        r@ == (FilterV { name: name@, token: token@ }),
{
    UserFilter { name: name.to_owned(), token: token.to_owned() }
}

/// The record stored for a newly registered user, who owns no movies yet.
pub fn new_user(name: &str, password: &str, token: &str) -> (r: User)
    ensures
        r@ == new_user_spec(name@, password@, token@),
{
    let r = User {
        name: name.to_owned(),
        password: password.to_owned(),
        token: token.to_owned(),
        created_movies: Vec::new(),
    };
    assert(r@.created_movies =~= Seq::<Seq<char>>::empty());
    r
}

/// The record stored for a new movie: its ratings start at zero.
pub fn new_movie(title: &str, author: &str, image_url: &str) -> (r: Movie)
    ensures
        r@ == new_movie_spec(title@, author@, image_url@),
{
    Movie {
        title: title.to_owned(),
        author: author.to_owned(),
        image_url: image_url.to_owned(),
        num_ratings: 0,
    }
}

/// A listed movie: the stored record decorated with its identifier.
pub fn movie_view(id: &str, m: &Movie) -> (r: MovieView)
    ensures
        r@ == (MovieViewV { id: id@, movie: m@ }),
{
    MovieView {
        id: id.to_owned(),
        title: m.title.clone(),
        author: m.author.clone(),
        image_url: m.image_url.clone(),
        num_ratings: m.num_ratings,
    }
}

} // verus!
