use vstd::prelude::*;
use vstd::string::StringExecFns;
use crate::model::{ApiError, BlobError};
use crate::session::SessionCookie;

verus! {

/// The JSON string literal for a text: quoted, with its special characters
/// escaped.
pub uninterp spec fn json_string_of(s: Seq<char>) -> Seq<char>;

/// The JSON array of numbers for a byte sequence.
pub uninterp spec fn json_byte_array_of(b: Seq<u8>) -> Seq<char>;

/// Relies on serde_json::to_string for a string slice, which writes the
/// quoted and escaped literal and cannot fail for text.
#[verifier::external_body]
fn json_string(s: &str) -> (r: String)
    ensures
        r@ == json_string_of(s@),
{
    match serde_json::to_string(s) {
        Ok(t) => t,
        Err(_) => String::new(),
    }
}

/// Relies on serde_json::to_string for a byte vector, which writes it as an
/// array of numbers and cannot fail for bytes.
#[verifier::external_body]
fn json_byte_array(b: &Vec<u8>) -> (r: String)
    ensures
        r@ == json_byte_array_of(b@),
{
    match serde_json::to_string(b) {
        Ok(t) => t,
        Err(_) => String::new(),
    }
}

/// A reply to a request: an HTTP status, a JSON body and the cookies to set.
pub struct JsonResponse {
    pub status: u16,
    pub json: String,
    pub cookies: Vec<SessionCookie>,
}

/// The body `{"key":"value"}` with both texts written as JSON strings.
pub open spec fn object_json_spec(key: Seq<char>, value: Seq<char>) -> Seq<char> {
    "{"@ + json_string_of(key) + ":"@ + json_string_of(value) + "}"@
}

pub open spec fn status_of(e: ApiError) -> u16 {
    match e {
        ApiError::Unauthorized => 401,
        ApiError::WrongCredentials => 401,
        ApiError::NameTaken => 401,
        ApiError::Conflict => 409,
        ApiError::Store => 500,
        ApiError::Blob => 500,
        ApiError::NotFound => 404,
    }
}

pub open spec fn message_of(e: ApiError) -> Seq<char> {
    match e {
        ApiError::Unauthorized => "Unauthorized"@,
        ApiError::WrongCredentials => "Wrong username or password"@,
        ApiError::NameTaken => "Username already exists"@,
        ApiError::Conflict => "Movie already exists"@,
        ApiError::Store => "Database error"@,
        ApiError::Blob => "Storage error"@,
        ApiError::NotFound => "Not found"@,
    }
}

/// The body of a failure: `{"error": <message>}`.
pub open spec fn error_json(e: ApiError) -> Seq<char> {
    object_json_spec("error"@, message_of(e))
}

/// The HTTP status with which an error is reported.
pub fn status(e: ApiError) -> (r: u16)
    ensures
        r == status_of(e),
{
    match e {
        ApiError::Unauthorized => 401,
        ApiError::WrongCredentials => 401,
        ApiError::NameTaken => 401,
        ApiError::Conflict => 409,
        ApiError::Store => 500,
        ApiError::Blob => 500,
        ApiError::NotFound => 404,
    }
}

/// The free-text message with which an error is reported.
pub fn message(e: ApiError) -> (r: &'static str)
    ensures
        r@ == message_of(e),
{
    match e {
        ApiError::Unauthorized => "Unauthorized",
        ApiError::WrongCredentials => "Wrong username or password",
        ApiError::NameTaken => "Username already exists",
        ApiError::Conflict => "Movie already exists",
        ApiError::Store => "Database error",
        ApiError::Blob => "Storage error",
        ApiError::NotFound => "Not found",
    }
}

/// Writes the one-field JSON object `{"key":"value"}`.
pub fn object_json(key: &str, value: &str) -> (r: String)
    ensures
        r@ == object_json_spec(key@, value@),
{
    let mut r = "{".to_owned();
    let k = json_string(key);
    r.append(k.as_str());
    r.append(":");
    let v = json_string(value);
    r.append(v.as_str());
    r.append("}");
    r
}

/// The reply for a failed request: its status and `{"error": <message>}`,
/// with no cookies.
pub fn error_response(e: ApiError) -> (r: JsonResponse)
    ensures
        r.status == status_of(e),
        r.json@ == error_json(e),
        r.cookies@.len() == 0,
{
    JsonResponse { status: status(e), json: object_json("error", message(e)), cookies: Vec::new() }
}

/// A successful reply with the body `{"key":"value"}` and no cookies.
pub fn ok_response(key: &str, value: &str) -> (r: JsonResponse)
    ensures
        r.status == 200,
        r.json@ == object_json_spec(key@, value@),
        r.cookies@.len() == 0,
{
    JsonResponse { status: 200, json: object_json(key, value), cookies: Vec::new() }
}

/// The reply to an image download: the bytes as a JSON array, or the blob
/// store's failure.
pub fn thumbnail_response(content: Result<Vec<u8>, BlobError>) -> (r: JsonResponse)
    ensures
        r.cookies@.len() == 0,
        match content {
            Ok(b) => r.status == 200 && r.json@ == json_byte_array_of(b@),
            Err(_) => r.status == status_of(ApiError::Blob) && r.json@ == error_json(ApiError::Blob),
        },
{
    match content {
        Ok(b) => JsonResponse { status: 200, json: json_byte_array(&b), cookies: Vec::new() },
        Err(_) => error_response(ApiError::Blob),
    }
}

} // verus!
