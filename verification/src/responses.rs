//! The wire shapes of the server's JSON responses, as plain values.
//!
//! Each struct carries the fields one operation family returns; its view is
//! the same record over sequences of characters, which the parsing contracts
//! and the session-update contracts speak of.

use vstd::prelude::*;

verus! {

/// The user object a successful authentication reports.
pub struct UserInfo {
    pub id: String,
    pub name: Option<String>,
    pub email: Option<String>,
}

pub struct UserInfoV {
    pub id: Seq<char>,
    pub name: Option<Seq<char>>,
    pub email: Option<Seq<char>>,
}

impl View for UserInfo {
    type V = UserInfoV;

    open spec fn view(&self) -> UserInfoV {
        UserInfoV {
            id: self.id@,
            name: match self.name {
                Some(ref n) => Some(n@),
                None => None,
            },
            email: match self.email {
                Some(ref e) => Some(e@),
                None => None,
            },
        }
    }
}

/// The response to a password login and to a token refresh.
///
/// `authenticated` and `result` must both be true for the outcome to count
/// as success; `token` then carries the new bearer credential and `expires`
/// its validity in seconds, when the server reports one.
pub struct LoginResponse {
    pub message: String,
    pub authenticated: bool,
    pub result: bool,
    pub token: Option<String>,
    pub user: Option<UserInfo>,
    pub expires: Option<i64>,
}

pub struct LoginResponseV {
    pub message: Seq<char>,
    pub authenticated: bool,
    pub result: bool,
    pub token: Option<Seq<char>>,
    pub user: Option<UserInfoV>,
    pub expires: Option<i64>,
}

impl View for LoginResponse {
    type V = LoginResponseV;

    open spec fn view(&self) -> LoginResponseV {
        LoginResponseV {
            message: self.message@,
            authenticated: self.authenticated,
            result: self.result,
            token: match self.token {
                Some(ref t) => Some(t@),
                None => None,
            },
            user: match self.user {
                Some(ref u) => Some(u@),
                None => None,
            },
            expires: self.expires,
        }
    }
}

/// The structured error body `{status, message}` a failing request carries.
pub struct ErrorResponse {
    pub status: String,
    pub message: String,
}

pub struct ErrorResponseV {
    pub status: Seq<char>,
    pub message: Seq<char>,
}

impl View for ErrorResponse {
    type V = ErrorResponseV;

    open spec fn view(&self) -> ErrorResponseV {
        ErrorResponseV { status: self.status@, message: self.message@ }
    }
}

/// The response to a library fetch.  The `library` and `playlists` fields
/// hold the raw JSON text of those sections; their inner structure belongs
/// to the business endpoints, which are outside the engine.
pub struct LibraryResponse {
    pub status: String,
    pub library: String,
    pub playlists: String,
}

pub struct LibraryResponseV {
    pub status: Seq<char>,
    pub library: Seq<char>,
    pub playlists: Seq<char>,
}

impl View for LibraryResponse {
    type V = LibraryResponseV;

    open spec fn view(&self) -> LibraryResponseV {
        LibraryResponseV {
            status: self.status@,
            library: self.library@,
            playlists: self.playlists@,
        }
    }
}

/// The response to a playback or stream-URL request.
pub struct PlaybackResponse {
    pub status: String,
    pub stream_url: String,
    pub duration: i64,
    pub bitrate: i64,
}

pub struct PlaybackResponseV {
    pub status: Seq<char>,
    pub stream_url: Seq<char>,
    pub duration: i64,
    pub bitrate: i64,
}

impl View for PlaybackResponse {
    type V = PlaybackResponseV;

    open spec fn view(&self) -> PlaybackResponseV {
        PlaybackResponseV {
            status: self.status@,
            stream_url: self.stream_url@,
            duration: self.duration,
            bitrate: self.bitrate,
        }
    }
}

/// The response to a playlist listing.
pub struct PlaylistResponse {
    pub status: String,
    pub playlist_id: String,
    pub name: String,
}

pub struct PlaylistResponseV {
    pub status: Seq<char>,
    pub playlist_id: Seq<char>,
    pub name: Seq<char>,
}

impl View for PlaylistResponse {
    type V = PlaylistResponseV;

    open spec fn view(&self) -> PlaylistResponseV {
        PlaylistResponseV {
            status: self.status@,
            playlist_id: self.playlist_id@,
            name: self.name@,
        }
    }
}

/// The dual-purpose response of the device-code flow: issuance fills
/// `device_code` and `expires_in`; polling reports `authenticated` and, on
/// success, the token and user exactly as a password login does.
pub struct DeviceCodeResponse {
    pub message: String,
    pub result: bool,
    pub device_code: Option<String>,
    pub expires_in: Option<i64>,
    pub authenticated: bool,
    pub token: Option<String>,
    pub user: Option<UserInfo>,
}

pub struct DeviceCodeResponseV {
    pub message: Seq<char>,
    pub result: bool,
    pub device_code: Option<Seq<char>>,
    pub expires_in: Option<i64>,
    pub authenticated: bool,
    pub token: Option<Seq<char>>,
    pub user: Option<UserInfoV>,
}

impl View for DeviceCodeResponse {
    type V = DeviceCodeResponseV;

    open spec fn view(&self) -> DeviceCodeResponseV {
        DeviceCodeResponseV {
            message: self.message@,
            result: self.result,
            device_code: match self.device_code {
                Some(ref c) => Some(c@),
                None => None,
            },
            expires_in: self.expires_in,
            authenticated: self.authenticated,
            token: match self.token {
                Some(ref t) => Some(t@),
                None => None,
            },
            user: match self.user {
                Some(ref u) => Some(u@),
                None => None,
            },
        }
    }
}

} // verus!
