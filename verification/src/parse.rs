//! Trusted JSON parsing, and the verified fallback around the error shape.
//!
//! Each response family has one parsing wrapper over `serde_json`.  What a
//! wrapper returns is a function of the body text alone, so each result is
//! given an uninterpreted name; every verified contract downstream speaks of
//! these names exactly.

use serde_json::Value;
use vstd::prelude::*;

use crate::responses::{
    DeviceCodeResponse, DeviceCodeResponseV, ErrorResponse, ErrorResponseV, LibraryResponse,
    LibraryResponseV, LoginResponse, LoginResponseV, PlaybackResponse, PlaybackResponseV,
    PlaylistResponse, PlaylistResponseV, UserInfo,
};

verus! {

/// What parsing a body as a login/refresh response yields.
pub uninterp spec fn login_parse_of(s: Seq<char>) -> Option<LoginResponseV>;

/// What parsing a body as a device-code response yields.
pub uninterp spec fn device_parse_of(s: Seq<char>) -> Option<DeviceCodeResponseV>;

/// What parsing a body as a structured error `{status, message}` yields.
pub uninterp spec fn error_parse_of(s: Seq<char>) -> Option<ErrorResponseV>;

/// What parsing a body as a library response yields.
pub uninterp spec fn library_parse_of(s: Seq<char>) -> Option<LibraryResponseV>;

/// What parsing a body as a playback response yields.
pub uninterp spec fn playback_parse_of(s: Seq<char>) -> Option<PlaybackResponseV>;

/// What parsing a body as a playlist response yields.
pub uninterp spec fn playlist_parse_of(s: Seq<char>) -> Option<PlaylistResponseV>;

/// Whether a body is well-formed JSON at all.
pub uninterp spec fn json_well_formed(s: Seq<char>) -> bool;

/// Relies on `serde_json::from_str::<Value>` and the `Value` accessors:
/// parses the login/refresh response shape.  `message`, `authenticated` and
/// `result` are required; of the user object only the id is read.
#[verifier::external_body]
pub(crate) fn parse_login_body(body: &str) -> (r: Option<LoginResponse>)
    ensures
        match r {
            Some(resp) => login_parse_of(body@) == Some(resp@),
            None => login_parse_of(body@) is None,
        },
{
    let v: Value = serde_json::from_str(body).ok()?;
    Some(LoginResponse {
        message: v.get("message")?.as_str()?.to_string(),
        authenticated: v.get("authenticated")?.as_bool()?,
        result: v.get("result")?.as_bool()?,
        token: v.get("token").and_then(Value::as_str).map(str::to_string),
        user: v.pointer("/user/id").and_then(Value::as_str).map(
            |id| UserInfo { id: id.to_string(), name: None, email: None },
        ),
        expires: v.get("expires").and_then(Value::as_i64),
    })
}

/// Relies on `serde_json::from_str::<Value>` and the `Value` accessors:
/// parses the device-code response shape.  `message` and `result` are
/// required, `authenticated` defaults to false; of the user object only the
/// id is read.
#[verifier::external_body]
pub(crate) fn parse_device_body(body: &str) -> (r: Option<DeviceCodeResponse>)
    ensures
        match r {
            Some(resp) => device_parse_of(body@) == Some(resp@),
            None => device_parse_of(body@) is None,
        },
{
    let v: Value = serde_json::from_str(body).ok()?;
    Some(DeviceCodeResponse {
        message: v.get("message")?.as_str()?.to_string(),
        result: v.get("result")?.as_bool()?,
        device_code: v.get("device_code").and_then(Value::as_str).map(str::to_string),
        expires_in: v.get("expires_in").and_then(Value::as_i64),
        authenticated: v.get("authenticated").and_then(Value::as_bool).unwrap_or(false),
        token: v.get("token").and_then(Value::as_str).map(str::to_string),
        user: v.pointer("/user/id").and_then(Value::as_str).map(
            |id| UserInfo { id: id.to_string(), name: None, email: None },
        ),
    })
}

/// Relies on `serde_json::from_str::<Value>` and the `Value` accessors:
/// parses the structured error shape; both fields are required strings.
#[verifier::external_body]
pub(crate) fn parse_error_body(body: &str) -> (r: Option<ErrorResponse>)
    ensures
        match r {
            Some(resp) => error_parse_of(body@) == Some(resp@),
            None => error_parse_of(body@) is None,
        },
{
    let v: Value = serde_json::from_str(body).ok()?;
    Some(ErrorResponse {
        status: v.get("status")?.as_str()?.to_string(),
        message: v.get("message")?.as_str()?.to_string(),
    })
}

/// Relies on `serde_json::from_str::<Value>`, the `Value` accessors and
/// `Value`'s `Display` (compact JSON text): parses the library response,
/// keeping the `library` and `playlists` sections as raw JSON text.
#[verifier::external_body]
pub(crate) fn parse_library_body(body: &str) -> (r: Option<LibraryResponse>)
    ensures
        match r {
            Some(resp) => library_parse_of(body@) == Some(resp@),
            None => library_parse_of(body@) is None,
        },
{
    let v: Value = serde_json::from_str(body).ok()?;
    Some(LibraryResponse {
        status: v.get("status")?.as_str()?.to_string(),
        library: v.get("library")?.to_string(),
        playlists: v.get("playlists")?.to_string(),
    })
}

/// Relies on `serde_json::from_str::<Value>` and the `Value` accessors:
/// parses the playback response; all four fields are required.
#[verifier::external_body]
pub(crate) fn parse_playback_body(body: &str) -> (r: Option<PlaybackResponse>)
    ensures
        match r {
            Some(resp) => playback_parse_of(body@) == Some(resp@),
            None => playback_parse_of(body@) is None,
        },
{
    let v: Value = serde_json::from_str(body).ok()?;
    Some(PlaybackResponse {
        status: v.get("status")?.as_str()?.to_string(),
        stream_url: v.get("stream_url")?.as_str()?.to_string(),
        duration: v.get("duration")?.as_i64()?,
        bitrate: v.get("bitrate")?.as_i64()?,
    })
}

/// Relies on `serde_json::from_str::<Value>` and the `Value` accessors:
/// parses the playlist response; all three fields are required strings.
#[verifier::external_body]
pub(crate) fn parse_playlist_body(body: &str) -> (r: Option<PlaylistResponse>)
    ensures
        match r {
            Some(resp) => playlist_parse_of(body@) == Some(resp@),
            None => playlist_parse_of(body@) is None,
        },
{
    let v: Value = serde_json::from_str(body).ok()?;
    Some(PlaylistResponse {
        status: v.get("status")?.as_str()?.to_string(),
        playlist_id: v.get("playlist_id")?.as_str()?.to_string(),
        name: v.get("name")?.as_str()?.to_string(),
    })
}

/// Relies on `serde_json::from_str::<Value>`: reports whether the body is
/// well-formed JSON.
#[verifier::external_body]
pub(crate) fn check_json_well_formed(body: &str) -> (r: bool)
    ensures
        r == json_well_formed(body@),
{
    serde_json::from_str::<Value>(body).is_ok()
}

/// The message a failing HTTP status is reported with: the `message` field
/// of the structured error body, or a generic text when the body does not
/// parse as one.
pub open spec fn spec_error_message(s: Seq<char>) -> Seq<char> {
    match error_parse_of(s) {
        Some(e) => e.message,
        None => "Unknown error"@,
    }
}

/// Extracts the server's error message from a failing response body,
/// substituting a generic text when the body has no structured error.
pub fn error_message_from_body(body: &str) -> (m: String)
    ensures
        m@ == spec_error_message(body@),
{
    match parse_error_body(body) {
        Some(e) => e.message,
        None => String::from_str("Unknown error"),
    }
}

} // verus!
