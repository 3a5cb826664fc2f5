use movie_catalog::accounts::{check_registration, login_token, session_reply};
use movie_catalog::guard::authenticate;
use movie_catalog::model::{user_filter, new_user, ApiError, BlobError, StoreError, User};
use movie_catalog::reader::{thumbnail_request, ThumbnailAction};
use movie_catalog::response::{error_response, message, object_json, ok_response, status, thumbnail_response};
use movie_catalog::session::{issue_token, session_cookies, session_expiry, SESSION_LIFETIME_SECS};

fn stored(name: &str, password: &str, token: &str) -> User {
    new_user(name, password, token)
}

#[test]
fn expiry_is_fifty_two_weeks_later() {
    assert_eq!(SESSION_LIFETIME_SECS, 52 * 7 * 24 * 60 * 60);
    assert_eq!(session_expiry(1_700_000_000), 1_731_449_600);
    assert_eq!(session_expiry(0), 31_449_600);
}

#[test]
fn session_cookies_carry_name_and_token() {
    let c = session_cookies("alice", "tok", 100);
    assert_eq!(c.len(), 2);
    assert_eq!(c[0].name, "username");
    assert_eq!(c[0].value, "alice");
    assert_eq!(c[0].path, "/");
    assert_eq!(c[0].expires, 100 + 31_449_600);
    assert_eq!(c[1].name, "id");
    assert_eq!(c[1].value, "tok");
    assert_eq!(c[1].path, "/");
    assert_eq!(c[1].expires, 100 + 31_449_600);
}

#[test]
fn issued_tokens_are_fresh_uuids() {
    let a = issue_token();
    let b = issue_token();
    assert_eq!(a.len(), 36);
    assert_eq!(b.len(), 36);
    assert_ne!(a, b);
    assert_eq!(a.matches('-').count(), 4);
}

#[test]
fn error_bodies_name_the_failure() {
    let r = error_response(ApiError::Unauthorized);
    assert_eq!(r.status, 401);
    assert_eq!(r.json, "{\"error\":\"Unauthorized\"}");
    assert!(r.cookies.is_empty());
    assert_eq!(error_response(ApiError::Conflict).json, "{\"error\":\"Movie already exists\"}");
    assert_eq!(error_response(ApiError::Conflict).status, 409);
    assert_eq!(error_response(ApiError::Store).status, 500);
    assert_eq!(error_response(ApiError::Store).json, "{\"error\":\"Database error\"}");
    assert_eq!(error_response(ApiError::Blob).status, 500);
    assert_eq!(error_response(ApiError::NotFound).status, 404);
    assert_eq!(error_response(ApiError::WrongCredentials).status, 401);
    assert_eq!(message(ApiError::WrongCredentials), "Wrong username or password");
    assert_eq!(status(ApiError::NameTaken), 401);
    assert_eq!(message(ApiError::NameTaken), "Username already exists");
}

#[test]
fn json_text_is_escaped() {
    assert_eq!(object_json("message", "say \"hi\"\n"), "{\"message\":\"say \\\"hi\\\"\\n\"}");
    assert_eq!(ok_response("message", "Movie added").json, "{\"message\":\"Movie added\"}");
    assert_eq!(ok_response("message", "Movie added").status, 200);
}

#[test]
fn thumbnail_with_empty_key_is_not_found() {
    assert!(matches!(thumbnail_request(""), ThumbnailAction::Reply(ApiError::NotFound)));
    match thumbnail_request("abc.png") {
        ThumbnailAction::Fetch(k) => assert_eq!(k, "abc.png"),
        ThumbnailAction::Reply(_) => panic!("expected a fetch"),
    }
}

#[test]
fn thumbnail_bytes_are_a_json_array() {
    let r = thumbnail_response(Ok(vec![1u8, 2, 255]));
    assert_eq!(r.status, 200);
    assert_eq!(r.json, "[1,2,255]");
    let r = thumbnail_response(Err(BlobError));
    assert_eq!(r.status, 500);
    assert_eq!(r.json, "{\"error\":\"Storage error\"}");
}

#[test]
fn wrong_name_wrong_token_or_both_look_the_same() {
    let f = user_filter("alice", "t1");
    let ok = authenticate(&f, Ok(Some(stored("alice", "p", "t1"))));
    assert_eq!(ok.unwrap().name, "alice");
    let wrong_name = authenticate(&f, Ok(Some(stored("bob", "p", "t1")))).err();
    let wrong_token = authenticate(&f, Ok(Some(stored("alice", "p", "t2")))).err();
    let both = authenticate(&f, Ok(Some(stored("bob", "p", "t2")))).err();
    let none = authenticate(&f, Ok(None)).err();
    assert_eq!(wrong_name, Some(ApiError::Unauthorized));
    assert_eq!(wrong_token, wrong_name);
    assert_eq!(both, wrong_name);
    assert_eq!(none, wrong_name);
    assert_eq!(authenticate(&f, Err(StoreError)).err(), Some(ApiError::Store));
}

#[test]
fn login_hands_back_the_stored_token() {
    let name = "alice".to_string();
    let pw = "p1".to_string();
    let t = login_token(&name, &pw, Ok(Some(stored("alice", "p1", "tok-1")))).unwrap();
    assert_eq!(t, "tok-1");
    assert_eq!(login_token(&name, &pw, Ok(None)).err(), Some(ApiError::WrongCredentials));
    assert_eq!(
        login_token(&name, &pw, Ok(Some(stored("alice", "other", "tok-1")))).err(),
        Some(ApiError::WrongCredentials)
    );
    assert_eq!(login_token(&name, &pw, Err(StoreError)).err(), Some(ApiError::Store));
}

#[test]
fn registration_refuses_taken_names() {
    assert_eq!(check_registration(Ok(false)), Ok(()));
    assert_eq!(check_registration(Ok(true)), Err(ApiError::NameTaken));
    assert_eq!(check_registration(Err(StoreError)), Err(ApiError::Store));
}

#[test]
fn session_reply_sets_cookies_or_reports_failure() {
    let r = session_reply("alice", Ok("tok".to_string()), 10);
    assert_eq!(r.status, 200);
    assert_eq!(r.json, "{\"redirectPath\":\"/movies\"}");
    assert_eq!(r.cookies.len(), 2);
    assert_eq!(r.cookies[1].value, "tok");
    let r = session_reply("alice", Err(ApiError::NameTaken), 10);
    assert_eq!(r.status, 401);
    assert_eq!(r.json, "{\"error\":\"Username already exists\"}");
    assert!(r.cookies.is_empty());
}
