use vstd::prelude::*;
use crate::model::{user_matches, ApiError, FilterV, StoreError, User, UserFilter, UserV};

verus! {

/// What the document store answered to a lookup of one user.
pub open spec fn lookup_view(found: Result<Option<User>, StoreError>) -> Result<Option<UserV>, StoreError> {
    match found {
        Ok(Some(u)) => Ok(Some(u@)),
        Ok(None) => Ok(None),
        Err(e) => Err(e),
    }
}

/// The outcome of authenticating a session from the store's answer: the user
/// when one matching both the name and the token came back, `Unauthorized`
/// when none did, `Store` when the lookup itself failed.
pub open spec fn auth_outcome(f: FilterV, found: Result<Option<UserV>, StoreError>) -> Result<UserV, ApiError> {
    match found {
        Err(_) => Err(ApiError::Store),
        Ok(None) => Err(ApiError::Unauthorized),
        Ok(Some(u)) => if user_matches(u, f) {
            Ok(u)
        } else {
            Err(ApiError::Unauthorized)
        },
    }
}

/// Resolves a session against the answer of the store to the lookup by
/// `filter`. A user that came back but does not match both fields is refused
/// as if none had come back.
pub fn authenticate(filter: &UserFilter, found: Result<Option<User>, StoreError>) -> (r: Result<User, ApiError>)
    ensures
        match r {
            Ok(u) => auth_outcome(filter@, lookup_view(found)) == Ok::<UserV, ApiError>(u@),
            Err(e) => auth_outcome(filter@, lookup_view(found)) == Err::<UserV, ApiError>(e),
        },
{
    match found {
        Err(_) => Err(ApiError::Store),
        Ok(None) => Err(ApiError::Unauthorized),
        Ok(Some(u)) => {
            if u.name == filter.name && u.token == filter.token {
                Ok(u)
            } else {
                Err(ApiError::Unauthorized)
            }
        },
    }
}

} // verus!
