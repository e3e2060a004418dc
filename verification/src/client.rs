//! The client: rate-limit gate, refresh gate, request builders and response
//! completions for every operation of the engine.
//!
//! A request runs in three verified stages around the unverified transport:
//! a builder produces the form parameters (rejecting token-requiring calls
//! on an unauthenticated session), [`IBroadcastClient::begin_request`]
//! consumes a rate-limit slot and says whether a refresh must run first, and
//! a completion turns the successful body into the typed response, updating
//! the session where the operation calls for it.

use vstd::prelude::*;

use crate::errors::{ErrorV, IBroadcastError};
use crate::parse::{
    check_json_well_formed, device_parse_of, json_well_formed, library_parse_of, login_parse_of,
    parse_device_body, parse_library_body, parse_login_body, parse_playback_body,
    parse_playlist_body, playback_parse_of, playlist_parse_of,
};
use crate::rate::RateWindow;
use crate::responses::{DeviceCodeResponse, LibraryResponse, PlaybackResponse, PlaylistResponse};
use crate::session::{
    spec_empty_session, spec_login_success, spec_poll_success, spec_session_after_login,
    spec_session_after_poll, spec_session_after_refresh, spec_login_failure, spec_refresh_failure,
    Session,
};
use crate::{
    MAX_REQUESTS_PER_WINDOW, RATE_LIMIT_WINDOW_SECS, TOKEN_REFRESH_THRESHOLD_SECS,
};

verus! {

/// Which gate a request passes: bootstrap operations (login and device-code
/// issuance) and the refresh itself skip the refresh check; every other
/// operation, device-code polling included, runs it.
#[derive(Clone, Copy)]
pub enum RequestClass {
    Bootstrap,
    Refresh,
    Authenticated,
}

/// What must happen next once a request has been admitted.
pub enum NextStep {
    /// Send the built request now.
    SendNow,
    /// Run a full refresh request first; the original request follows only
    /// if the refresh succeeds.
    RefreshFirst,
}

/// The form parameters of one request, in the order they are sent.
pub type RequestParams = Vec<(String, String)>;

/// The pair at position `i` of a parameter list, as sequences of characters.
pub open spec fn param(ps: Seq<(String, String)>, i: int) -> (Seq<char>, Seq<char>) {
    (ps[i].0@, ps[i].1@)
}

/// The message `InvalidResponse` carries when a body does not parse.
pub open spec fn spec_parse_failure() -> ErrorV {
    ErrorV::InvalidResponse("Failed to parse response"@)
}

/// The session/request engine: one session and one rate window, advanced by
/// plain values only.
pub struct IBroadcastClient {
    pub session: Session,
    pub window: RateWindow,
}

impl IBroadcastClient {
    /// The client is well formed when its session is.
    pub open spec fn wf(self) -> bool {
        self.session.wf()
    }

    /// Creates an unauthenticated client whose rate window starts at `now`.
    pub fn new(now: u64) -> (c: IBroadcastClient)
        ensures
            c.session@ == spec_empty_session(),
            c.window == (RateWindow { window_start: now, count: 0u32 }),
            c.wf(),
    {
        IBroadcastClient { session: Session::new(), window: RateWindow::new(now) }
    }

    /// Consumes one rate-limit slot at time `now`, rejecting the request
    /// when the quota for the current window is exhausted.  The session is
    /// never touched.
    pub fn check_rate_limit(&mut self, now: u64) -> (r: Result<(), IBroadcastError>)
        ensures
            final(self).session == old(self).session,
            final(self).window == old(self).window.spec_acquire(
                now,
                MAX_REQUESTS_PER_WINDOW,
                RATE_LIMIT_WINDOW_SECS,
            ).0,
            old(self).window.spec_acquire(now, MAX_REQUESTS_PER_WINDOW, RATE_LIMIT_WINDOW_SECS).1
                ==> r == Ok::<(), IBroadcastError>(()),
            !old(self).window.spec_acquire(now, MAX_REQUESTS_PER_WINDOW, RATE_LIMIT_WINDOW_SECS).1
                ==> r == Err::<(), IBroadcastError>(IBroadcastError::RateLimitExceeded),
    {
        self.window.acquire(now, MAX_REQUESTS_PER_WINDOW, RATE_LIMIT_WINDOW_SECS)
    }

    /// Reports whether the token is due for a refresh at time `now`, under
    /// the engine's threshold.
    pub fn needs_refresh(&self, now: u64) -> (r: bool)
        ensures
            r == self.session.spec_needs_refresh(now, TOKEN_REFRESH_THRESHOLD_SECS),
    {
        self.session.needs_refresh(now, TOKEN_REFRESH_THRESHOLD_SECS)
    }

    /// Admits one request at time `now`: consumes a rate-limit slot, then —
    /// for token-bearing operations only — runs the refresh check.  The
    /// session is never touched; a due refresh is announced, not performed.
    pub fn begin_request(&mut self, class: RequestClass, now: u64) -> (r: Result<
        NextStep,
        IBroadcastError,
    >)
        ensures
            final(self).session == old(self).session,
            final(self).window == old(self).window.spec_acquire(
                now,
                MAX_REQUESTS_PER_WINDOW,
                RATE_LIMIT_WINDOW_SECS,
            ).0,
            !old(self).window.spec_acquire(now, MAX_REQUESTS_PER_WINDOW, RATE_LIMIT_WINDOW_SECS).1
                ==> r == Err::<NextStep, IBroadcastError>(IBroadcastError::RateLimitExceeded),
            old(self).window.spec_acquire(now, MAX_REQUESTS_PER_WINDOW, RATE_LIMIT_WINDOW_SECS).1
                ==> r == Ok::<NextStep, IBroadcastError>(
                match class {
                    RequestClass::Bootstrap | RequestClass::Refresh => NextStep::SendNow,
                    RequestClass::Authenticated => if old(self).session.spec_needs_refresh(
                        now,
                        TOKEN_REFRESH_THRESHOLD_SECS,
                    ) {
                        NextStep::RefreshFirst
                    } else {
                        NextStep::SendNow
                    },
                },
            ),
    {
        self.check_rate_limit(now)?;
        match class {
            RequestClass::Bootstrap | RequestClass::Refresh => Ok(NextStep::SendNow),
            RequestClass::Authenticated => {
                if self.session.needs_refresh(now, TOKEN_REFRESH_THRESHOLD_SECS) {
                    Ok(NextStep::RefreshFirst)
                } else {
                    Ok(NextStep::SendNow)
                }
            },
        }
    }

    /// Builds the two parameters every token-bearing request starts from,
    /// rejecting the call when no token is present.
    fn token_params(&self, mode: &str) -> (r: Result<RequestParams, IBroadcastError>)
        ensures
            match r {
                Ok(ps) => {
                    &&& self.session@.token matches Some(t)
                    &&& ps@.len() == 2
                    &&& param(ps@, 0) == ("mode"@, mode@)
                    &&& param(ps@, 1) == ("token"@, t)
                },
                Err(e) => self.session@.token is None && e == IBroadcastError::NotLoggedIn,
            },
    {
        match self.session.token {
            Some(ref tok) => {
                let mut ps: RequestParams = Vec::new();
                ps.push((String::from_str("mode"), String::from_str(mode)));
                ps.push((String::from_str("token"), tok.clone()));
                Ok(ps)
            },
            None => Err(IBroadcastError::NotLoggedIn),
        }
    }

    /// Builds the password-login request; a bootstrap operation, so no token
    /// is consulted.  The password travels only here.
    pub fn login_request(&self, email: &str, password: &str) -> (ps: RequestParams)
        ensures
            ps@.len() == 7,
            param(ps@, 0) == ("mode"@, "login"@),
            param(ps@, 1) == ("email"@, email@),
            param(ps@, 2) == ("password"@, password@),
            param(ps@, 3) == ("app"@, "Latke"@),
            param(ps@, 4) == ("version"@, "0.1.0"@),
            param(ps@, 5) == ("device"@, "desktop"@),
            param(ps@, 6) == ("client"@, "Latke Desktop Client"@),
    {
        let mut ps: RequestParams = Vec::new();
        ps.push((String::from_str("mode"), String::from_str("login")));
        ps.push((String::from_str("email"), String::from_str(email)));
        ps.push((String::from_str("password"), String::from_str(password)));
        ps.push((String::from_str("app"), String::from_str("Latke")));
        ps.push((String::from_str("version"), String::from_str("0.1.0")));
        ps.push((String::from_str("device"), String::from_str("desktop")));
        ps.push((String::from_str("client"), String::from_str("Latke Desktop Client")));
        ps
    }

    /// Completes a login: parses the body and, on a success report, installs
    /// the new session; see [`spec_session_after_login`].  The rate window
    /// is never touched.
    pub fn complete_login(&mut self, body: &str, now: u64) -> (r: Result<(), IBroadcastError>)
        requires
            old(self).wf(),
        ensures
            final(self).window == old(self).window,
            final(self).wf(),
            match login_parse_of(body@) {
                None => final(self).session == old(self).session && (r matches Err(e) && e@
                    == spec_parse_failure()),
                Some(v) => {
                    &&& spec_login_success(v) ==> r == Ok::<(), IBroadcastError>(())
                        && final(self).session@ == spec_session_after_login(v, now)
                    &&& !spec_login_success(v) ==> final(self).session == old(self).session && (
                    r matches Err(e) && e@ == spec_login_failure(v))
                },
            },
    {
        match parse_login_body(body) {
            Some(resp) => self.session.apply_login(&resp, now),
            None => Err(IBroadcastError::InvalidResponse(String::from_str(
                "Failed to parse response",
            ))),
        }
    }

    /// Builds the token-refresh request, using the current token as the
    /// refresh credential; rejected when no token is present.
    pub fn refresh_request(&self) -> (r: Result<RequestParams, IBroadcastError>)
        ensures
            match r {
                Ok(ps) => {
                    &&& self.session@.token matches Some(t)
                    &&& ps@.len() == 2
                    &&& param(ps@, 0) == ("mode"@, "refresh"@)
                    &&& param(ps@, 1) == ("token"@, t)
                },
                Err(e) => self.session@.token is None && e == IBroadcastError::NotLoggedIn,
            },
    {
        self.token_params("refresh")
    }

    /// Completes a refresh: parses the body and, on a success report,
    /// replaces the token and expiry; on a rejection the session becomes
    /// unauthenticated (the stale token is not retried); see
    /// [`spec_session_after_refresh`].  A body that does not parse leaves
    /// the session untouched.
    pub fn complete_refresh(&mut self, body: &str, now: u64) -> (r: Result<(), IBroadcastError>)
        requires
            old(self).wf(),
        ensures
            final(self).window == old(self).window,
            final(self).wf(),
            match login_parse_of(body@) {
                None => final(self).session == old(self).session && (r matches Err(e) && e@
                    == spec_parse_failure()),
                Some(v) => {
                    &&& spec_login_success(v) ==> r == Ok::<(), IBroadcastError>(())
                        && final(self).session@ == spec_session_after_refresh(old(self).session@, v, now)
                    &&& !spec_login_success(v) ==> final(self).session@ == spec_empty_session()
                        && (r matches Err(e) && e@ == spec_refresh_failure(v))
                },
            },
    {
        match parse_login_body(body) {
            Some(resp) => self.session.apply_refresh(&resp, now),
            None => Err(IBroadcastError::InvalidResponse(String::from_str(
                "Failed to parse response",
            ))),
        }
    }

    /// Builds the device-code issuance request; a bootstrap operation, so no
    /// token is consulted.
    pub fn get_device_code_request(&self) -> (ps: RequestParams)
        ensures
            ps@.len() == 5,
            param(ps@, 0) == ("mode"@, "getdevicecode"@),
            param(ps@, 1) == ("app"@, "Latke"@),
            param(ps@, 2) == ("version"@, "0.1.0"@),
            param(ps@, 3) == ("device"@, "desktop"@),
            param(ps@, 4) == ("client"@, "Latke Desktop Client"@),
    {
        let mut ps: RequestParams = Vec::new();
        ps.push((String::from_str("mode"), String::from_str("getdevicecode")));
        ps.push((String::from_str("app"), String::from_str("Latke")));
        ps.push((String::from_str("version"), String::from_str("0.1.0")));
        ps.push((String::from_str("device"), String::from_str("desktop")));
        ps.push((String::from_str("client"), String::from_str("Latke Desktop Client")));
        ps
    }

    /// Builds one poll of the device-code flow; the code itself is supplied
    /// by the caller on every poll and never mutated.
    pub fn poll_device_code_request(&self, device_code: &str) -> (ps: RequestParams)
        ensures
            ps@.len() == 6,
            param(ps@, 0) == ("mode"@, "polldevicecode"@),
            param(ps@, 1) == ("device_code"@, device_code@),
            param(ps@, 2) == ("app"@, "Latke"@),
            param(ps@, 3) == ("version"@, "0.1.0"@),
            param(ps@, 4) == ("device"@, "desktop"@),
            param(ps@, 5) == ("client"@, "Latke Desktop Client"@),
    {
        let mut ps: RequestParams = Vec::new();
        ps.push((String::from_str("mode"), String::from_str("polldevicecode")));
        ps.push((String::from_str("device_code"), String::from_str(device_code)));
        ps.push((String::from_str("app"), String::from_str("Latke")));
        ps.push((String::from_str("version"), String::from_str("0.1.0")));
        ps.push((String::from_str("device"), String::from_str("desktop")));
        ps.push((String::from_str("client"), String::from_str("Latke Desktop Client")));
        ps
    }

    /// Completes one device-code poll: parses the body, installs the session
    /// exactly when the response reports completed pairing (see
    /// [`spec_session_after_poll`]), and hands the response back so the
    /// caller can decide whether to poll again.
    pub fn complete_poll_device_code(&mut self, body: &str) -> (r: Result<
        DeviceCodeResponse,
        IBroadcastError,
    >)
        requires
            old(self).wf(),
        ensures
            final(self).window == old(self).window,
            final(self).wf(),
            match device_parse_of(body@) {
                None => final(self).session == old(self).session && (r matches Err(e) && e@
                    == spec_parse_failure()),
                Some(v) => {
                    &&& final(self).session@ == spec_session_after_poll(old(self).session@, v)
                    &&& r matches Ok(resp) && resp@ == v
                    &&& !spec_poll_success(v) ==> final(self).session == old(self).session
                },
            },
    {
        match parse_device_body(body) {
            Some(resp) => {
                self.session.apply_poll(&resp);
                Ok(resp)
            },
            None => Err(IBroadcastError::InvalidResponse(String::from_str(
                "Failed to parse response",
            ))),
        }
    }

    /// Builds the library fetch; requires a token.
    pub fn get_library_request(&self) -> (r: Result<RequestParams, IBroadcastError>)
        ensures
            match r {
                Ok(ps) => {
                    &&& self.session@.token matches Some(t)
                    &&& ps@.len() == 2
                    &&& param(ps@, 0) == ("mode"@, "getlibrary"@)
                    &&& param(ps@, 1) == ("token"@, t)
                },
                Err(e) => self.session@.token is None && e == IBroadcastError::NotLoggedIn,
            },
    {
        self.token_params("getlibrary")
    }

    /// Builds the stream-URL request for one track; requires a token.
    pub fn get_stream_url_request(&self, track_id: &str) -> (r: Result<
        RequestParams,
        IBroadcastError,
    >)
        ensures
            match r {
                Ok(ps) => {
                    &&& self.session@.token matches Some(t)
                    &&& ps@.len() == 3
                    &&& param(ps@, 0) == ("mode"@, "stream"@)
                    &&& param(ps@, 1) == ("token"@, t)
                    &&& param(ps@, 2) == ("id"@, track_id@)
                },
                Err(e) => self.session@.token is None && e == IBroadcastError::NotLoggedIn,
            },
    {
        let mut ps = self.token_params("stream")?;
        ps.push((String::from_str("id"), String::from_str(track_id)));
        Ok(ps)
    }

    /// Builds the search request; requires a token.
    pub fn search_request(&self, query: &str) -> (r: Result<RequestParams, IBroadcastError>)
        ensures
            match r {
                Ok(ps) => {
                    &&& self.session@.token matches Some(t)
                    &&& ps@.len() == 3
                    &&& param(ps@, 0) == ("mode"@, "search"@)
                    &&& param(ps@, 1) == ("token"@, t)
                    &&& param(ps@, 2) == ("query"@, query@)
                },
                Err(e) => self.session@.token is None && e == IBroadcastError::NotLoggedIn,
            },
    {
        let mut ps = self.token_params("search")?;
        ps.push((String::from_str("query"), String::from_str(query)));
        Ok(ps)
    }

    /// Builds the playlist-creation request; requires a token.
    pub fn create_playlist_request(&self, name: &str) -> (r: Result<
        RequestParams,
        IBroadcastError,
    >)
        ensures
            match r {
                Ok(ps) => {
                    &&& self.session@.token matches Some(t)
                    &&& ps@.len() == 3
                    &&& param(ps@, 0) == ("mode"@, "createplaylist"@)
                    &&& param(ps@, 1) == ("token"@, t)
                    &&& param(ps@, 2) == ("name"@, name@)
                },
                Err(e) => self.session@.token is None && e == IBroadcastError::NotLoggedIn,
            },
    {
        let mut ps = self.token_params("createplaylist")?;
        ps.push((String::from_str("name"), String::from_str(name)));
        Ok(ps)
    }

    /// Builds the add-to-playlist request; requires a token.
    pub fn add_to_playlist_request(&self, playlist_id: &str, media_id: &str) -> (r: Result<
        RequestParams,
        IBroadcastError,
    >)
        ensures
            match r {
                Ok(ps) => {
                    &&& self.session@.token matches Some(t)
                    &&& ps@.len() == 4
                    &&& param(ps@, 0) == ("mode"@, "addtoplaylist"@)
                    &&& param(ps@, 1) == ("token"@, t)
                    &&& param(ps@, 2) == ("playlist_id"@, playlist_id@)
                    &&& param(ps@, 3) == ("media_id"@, media_id@)
                },
                Err(e) => self.session@.token is None && e == IBroadcastError::NotLoggedIn,
            },
    {
        let mut ps = self.token_params("addtoplaylist")?;
        ps.push((String::from_str("playlist_id"), String::from_str(playlist_id)));
        ps.push((String::from_str("media_id"), String::from_str(media_id)));
        Ok(ps)
    }

    /// Builds the remove-from-playlist request; requires a token.
    pub fn remove_from_playlist_request(&self, playlist_id: &str, media_id: &str) -> (r: Result<
        RequestParams,
        IBroadcastError,
    >)
        ensures
            match r {
                Ok(ps) => {
                    &&& self.session@.token matches Some(t)
                    &&& ps@.len() == 4
                    &&& param(ps@, 0) == ("mode"@, "removefromplaylist"@)
                    &&& param(ps@, 1) == ("token"@, t)
                    &&& param(ps@, 2) == ("playlist_id"@, playlist_id@)
                    &&& param(ps@, 3) == ("media_id"@, media_id@)
                },
                Err(e) => self.session@.token is None && e == IBroadcastError::NotLoggedIn,
            },
    {
        let mut ps = self.token_params("removefromplaylist")?;
        ps.push((String::from_str("playlist_id"), String::from_str(playlist_id)));
        ps.push((String::from_str("media_id"), String::from_str(media_id)));
        Ok(ps)
    }

    /// Builds the playlist-deletion request; requires a token.
    pub fn delete_playlist_request(&self, playlist_id: &str) -> (r: Result<
        RequestParams,
        IBroadcastError,
    >)
        ensures
            match r {
                Ok(ps) => {
                    &&& self.session@.token matches Some(t)
                    &&& ps@.len() == 3
                    &&& param(ps@, 0) == ("mode"@, "deleteplaylist"@)
                    &&& param(ps@, 1) == ("token"@, t)
                    &&& param(ps@, 2) == ("playlist_id"@, playlist_id@)
                },
                Err(e) => self.session@.token is None && e == IBroadcastError::NotLoggedIn,
            },
    {
        let mut ps = self.token_params("deleteplaylist")?;
        ps.push((String::from_str("playlist_id"), String::from_str(playlist_id)));
        Ok(ps)
    }

    /// Builds the playback-status request; requires a token.
    pub fn get_playback_status_request(&self) -> (r: Result<RequestParams, IBroadcastError>)
        ensures
            match r {
                Ok(ps) => {
                    &&& self.session@.token matches Some(t)
                    &&& ps@.len() == 2
                    &&& param(ps@, 0) == ("mode"@, "getplaybackstatus"@)
                    &&& param(ps@, 1) == ("token"@, t)
                },
                Err(e) => self.session@.token is None && e == IBroadcastError::NotLoggedIn,
            },
    {
        self.token_params("getplaybackstatus")
    }

    /// Builds the playback request; requires a token.
    pub fn get_playback_request(&self) -> (r: Result<RequestParams, IBroadcastError>)
        ensures
            match r {
                Ok(ps) => {
                    &&& self.session@.token matches Some(t)
                    &&& ps@.len() == 2
                    &&& param(ps@, 0) == ("mode"@, "getplayback"@)
                    &&& param(ps@, 1) == ("token"@, t)
                },
                Err(e) => self.session@.token is None && e == IBroadcastError::NotLoggedIn,
            },
    {
        self.token_params("getplayback")
    }

    /// Builds the play request for one item; requires a token.
    pub fn play_request(&self, media_id: &str) -> (r: Result<RequestParams, IBroadcastError>)
        ensures
            match r {
                Ok(ps) => {
                    &&& self.session@.token matches Some(t)
                    &&& ps@.len() == 3
                    &&& param(ps@, 0) == ("mode"@, "play"@)
                    &&& param(ps@, 1) == ("token"@, t)
                    &&& param(ps@, 2) == ("media_id"@, media_id@)
                },
                Err(e) => self.session@.token is None && e == IBroadcastError::NotLoggedIn,
            },
    {
        let mut ps = self.token_params("play")?;
        ps.push((String::from_str("media_id"), String::from_str(media_id)));
        Ok(ps)
    }

    /// Builds the playlist listing request; requires a token.
    pub fn get_playlists_request(&self) -> (r: Result<RequestParams, IBroadcastError>)
        ensures
            match r {
                Ok(ps) => {
                    &&& self.session@.token matches Some(t)
                    &&& ps@.len() == 2
                    &&& param(ps@, 0) == ("mode"@, "getplaylists"@)
                    &&& param(ps@, 1) == ("token"@, t)
                },
                Err(e) => self.session@.token is None && e == IBroadcastError::NotLoggedIn,
            },
    {
        self.token_params("getplaylists")
    }
}

/// Completes a device-code issuance: the parsed response, or
/// `InvalidResponse` when the body does not parse.  The session is not
/// involved; pairing only completes through polling.
pub fn complete_device_code(body: &str) -> (r: Result<DeviceCodeResponse, IBroadcastError>)
    ensures
        match device_parse_of(body@) {
            Some(v) => r matches Ok(resp) && resp@ == v,
            None => r matches Err(e) && e@ == spec_parse_failure(),
        },
{
    match parse_device_body(body) {
        Some(resp) => Ok(resp),
        None => Err(IBroadcastError::InvalidResponse(String::from_str("Failed to parse response"))),
    }
}

/// Completes a library fetch: the parsed response, or `InvalidResponse`.
pub fn complete_library(body: &str) -> (r: Result<LibraryResponse, IBroadcastError>)
    ensures
        match library_parse_of(body@) {
            Some(v) => r matches Ok(resp) && resp@ == v,
            None => r matches Err(e) && e@ == spec_parse_failure(),
        },
{
    match parse_library_body(body) {
        Some(resp) => Ok(resp),
        None => Err(IBroadcastError::InvalidResponse(String::from_str("Failed to parse response"))),
    }
}

/// Completes a playback or stream-URL request: the parsed response, or
/// `InvalidResponse`.
pub fn complete_playback(body: &str) -> (r: Result<PlaybackResponse, IBroadcastError>)
    ensures
        match playback_parse_of(body@) {
            Some(v) => r matches Ok(resp) && resp@ == v,
            None => r matches Err(e) && e@ == spec_parse_failure(),
        },
{
    match parse_playback_body(body) {
        Some(resp) => Ok(resp),
        None => Err(IBroadcastError::InvalidResponse(String::from_str("Failed to parse response"))),
    }
}

/// Completes a playlist listing: the parsed response, or `InvalidResponse`.
pub fn complete_playlists(body: &str) -> (r: Result<PlaylistResponse, IBroadcastError>)
    ensures
        match playlist_parse_of(body@) {
            Some(v) => r matches Ok(resp) && resp@ == v,
            None => r matches Err(e) && e@ == spec_parse_failure(),
        },
{
    match parse_playlist_body(body) {
        Some(resp) => Ok(resp),
        None => Err(IBroadcastError::InvalidResponse(String::from_str("Failed to parse response"))),
    }
}

/// Completes an operation whose payload the engine hands through untyped
/// (search, deletion, playback status): the body itself when it is
/// well-formed JSON, else `InvalidResponse`.
pub fn complete_raw(body: &str) -> (r: Result<String, IBroadcastError>)
    ensures
        json_well_formed(body@) ==> (r matches Ok(b) && b@ == body@),
        !json_well_formed(body@) ==> (r matches Err(e) && e@ == spec_parse_failure()),
{
    if check_json_well_formed(body) {
        Ok(body.to_owned())
    } else {
        Err(IBroadcastError::InvalidResponse(String::from_str("Failed to parse response")))
    }
}

/// Completes an operation whose payload is discarded (playlist mutation,
/// play): success exactly when the body is well-formed JSON.
pub fn complete_unit(body: &str) -> (r: Result<(), IBroadcastError>)
    ensures
        json_well_formed(body@) ==> r == Ok::<(), IBroadcastError>(()),
        !json_well_formed(body@) ==> (r matches Err(e) && e@ == spec_parse_failure()),
{
    if check_json_well_formed(body) {
        Ok(())
    } else {
        Err(IBroadcastError::InvalidResponse(String::from_str("Failed to parse response")))
    }
}

} // verus!
