use vstd::prelude::*;
use crate::guard::{auth_outcome, authenticate, lookup_view};
use crate::model::{movie_view, ApiError, Movie, MovieV, MovieView, MovieViewV, StoreError, User, UserFilter, UserV};

verus! {

/// The listing of stored movies, each with its identifier, in store order.
pub open spec fn catalog_spec(records: Seq<(Seq<char>, MovieV)>) -> Seq<MovieViewV> {
    records.map_values(|r: (Seq<char>, MovieV)| MovieViewV { id: r.0, movie: r.1 })
}

pub open spec fn records_view(records: Seq<(String, Movie)>) -> Seq<(Seq<char>, MovieV)> {
    records.map_values(|r: (String, Movie)| (r.0@, r.1@))
}

/// Lists movies as the store returned them, with their identifiers.
pub fn list_movies(records: &Vec<(String, Movie)>) -> (r: Vec<MovieView>)
    ensures
        r@.map_values(|v: MovieView| v@) == catalog_spec(records_view(records@)),
{
    let mut r: Vec<MovieView> = Vec::new();
    let mut i: usize = 0;
    while i < records.len()
        invariant
            i <= records@.len(),
            r@.map_values(|v: MovieView| v@) == catalog_spec(records_view(records@)).take(i as int),
        decreases records@.len() - i,
    {
        let v = movie_view(records[i].0.as_str(), &records[i].1);
        assert(v@ == catalog_spec(records_view(records@))[i as int]);
        let ghost prev = r@;
        r.push(v);
        assert(r@ == prev.push(v));
        assert(r@.map_values(|v: MovieView| v@) =~= prev.map_values(|v: MovieView| v@).push(v@));
        i = i + 1;
        assert(r@.map_values(|v: MovieView| v@) =~= catalog_spec(records_view(records@)).take(i as int));
    }
    assert(catalog_spec(records_view(records@)).take(i as int) =~= catalog_spec(records_view(records@)));
    r
}

/// The identifiers of the movies that the session's user owns, once the
/// session is resolved against the store's answer; the failure of
/// authentication otherwise.
pub fn owned_movie_ids(filter: &UserFilter, found: Result<Option<User>, StoreError>) -> (r: Result<Vec<String>, ApiError>)
    ensures
        match r {
            Ok(ids) => exists|u: UserV| {
                &&& auth_outcome(filter@, lookup_view(found)) == Ok::<UserV, ApiError>(u)
                &&& ids@.map_values(|m: String| m@) == u.created_movies
            },
            Err(e) => auth_outcome(filter@, lookup_view(found)) == Err::<UserV, ApiError>(e),
        },
{
    match authenticate(filter, found) {
        Ok(u) => {
            let ghost uv = u@;
            let ids = u.created_movies;
            assert(ids@.map_values(|m: String| m@) == uv.created_movies);
            Ok(ids)
        },
        Err(e) => Err(e),
    }
}

/// What serving an image asks for.
pub enum ThumbnailAction {
    /// Download the blob with this key.
    Fetch(String),
    /// Reply with this failure without touching the blob store.
    Reply(ApiError),
}

/// Serving an image: an empty key is answered `NotFound` at once; any other
/// key is fetched from the blob store as it is.
pub fn thumbnail_request(key: &str) -> (r: ThumbnailAction)
    ensures
        key@.len() == 0 ==> r == ThumbnailAction::Reply(ApiError::NotFound),
        key@.len() != 0 ==> (r matches ThumbnailAction::Fetch(k) && k@ == key@),
{
    if key.is_empty() {
        ThumbnailAction::Reply(ApiError::NotFound)
    } else {
        ThumbnailAction::Fetch(key.to_owned())
    }
}

} // verus!
