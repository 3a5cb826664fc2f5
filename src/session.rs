use vstd::prelude::*;
use crate::response::{object_json, object_json_spec, JsonResponse};

verus! {

/// How long a session cookie lives in the browser, in seconds: 52 weeks.
/// The token itself never expires in the store.
pub const SESSION_LIFETIME_SECS: i64 = 31449600;

/// Where the client is sent after it signs in or registers.
pub open spec fn landing_path() -> Seq<char> {
    "/movies"@
}

/// A cookie that carries half of a session to the client.
pub struct SessionCookie {
    pub name: String,
    pub value: String,
    pub path: String,
    /// Expiry, in seconds since the Unix epoch.
    pub expires: i64,
}

pub ghost struct CookieV {
    pub name: Seq<char>,
    pub value: Seq<char>,
    pub path: Seq<char>,
    pub expires: int,
}

impl View for SessionCookie {
    type V = CookieV;

    open spec fn view(&self) -> CookieV {
        CookieV { name: self.name@, value: self.value@, path: self.path@, expires: self.expires as int }
    }
}

/// The two cookies of a session issued at `now`: `username` and `id`, both on
/// path `/`, both expiring 52 weeks later.
pub open spec fn session_cookies_spec(name: Seq<char>, token: Seq<char>, now: int) -> Seq<CookieV> {
    seq![
        CookieV { name: "username"@, value: name, path: "/"@, expires: now + SESSION_LIFETIME_SECS },
        CookieV { name: "id"@, value: token, path: "/"@, expires: now + SESSION_LIFETIME_SECS },
    ]
}

/// Relies on uuid::Uuid::new_v4 for a random version 4 identifier, written in
/// its hyphenated form of 36 characters.
#[verifier::external_body]
fn random_uuid_text() -> (r: String)
    ensures
        r@.len() == 36,
{
    uuid::Uuid::new_v4().to_string()
}

/// Issues a fresh random token, used as a session token and as the stem of an
/// image key. Nothing is known of it but its length.
pub fn issue_token() -> (r: String)
    ensures
        r@.len() == 36,
{
    random_uuid_text()
}

/// The cookie expiry of a session issued at `now` (seconds since the epoch).
pub fn session_expiry(now: i64) -> (r: i64)
    requires
        now <= i64::MAX - SESSION_LIFETIME_SECS,
    ensures
        r == now + SESSION_LIFETIME_SECS,
{
    now + SESSION_LIFETIME_SECS
}

/// The cookies that deliver a session to the client.
pub fn session_cookies(name: &str, token: &str, now: i64) -> (r: Vec<SessionCookie>)
    requires
        now <= i64::MAX - SESSION_LIFETIME_SECS,
    ensures
        r@.map_values(|c: SessionCookie| c@) == session_cookies_spec(name@, token@, now as int),
{
    let expires = session_expiry(now);
    let mut r: Vec<SessionCookie> = Vec::new();
    r.push(SessionCookie { name: "username".to_owned(), value: name.to_owned(), path: "/".to_owned(), expires });
    r.push(SessionCookie { name: "id".to_owned(), value: token.to_owned(), path: "/".to_owned(), expires });
    assert(r@.map_values(|c: SessionCookie| c@) =~= session_cookies_spec(name@, token@, now as int));
    r
}

/// The reply that opens a session: status 200, `{"redirectPath":"/movies"}`,
/// and the two session cookies.
pub fn session_response(name: &str, token: &str, now: i64) -> (r: JsonResponse)
    requires
        now <= i64::MAX - SESSION_LIFETIME_SECS,
    ensures
        r.status == 200,
        r.json@ == object_json_spec("redirectPath"@, landing_path()),
        r.cookies@.map_values(|c: SessionCookie| c@) == session_cookies_spec(name@, token@, now as int),
{
    JsonResponse {
        status: 200,
        json: object_json("redirectPath", "/movies"),
        cookies: session_cookies(name, token, now),
    }
}

} // verus!
