//! The session state and the token-refresh policy.
//!
//! A session is unauthenticated until a login or a completed device-code
//! pairing populates it.  A refresh replaces the token and expiry pair
//! atomically; a rejected refresh leaves the session unauthenticated, and
//! the stale token is never retried.

use vstd::prelude::*;

use crate::errors::{ErrorV, IBroadcastError};
use crate::responses::{DeviceCodeResponse, DeviceCodeResponseV, LoginResponse, LoginResponseV};

verus! {

/// The bearer credential and who it belongs to.  An absent token means the
/// session is unauthenticated; an absent expiry means the server reported
/// none and the token is treated as valid until a request fails.
pub struct Session {
    pub token: Option<String>,
    pub token_expires: Option<u64>,
    pub user_id: Option<String>,
}

/// The mathematical shape of a [`Session`].
pub struct SessionV {
    pub token: Option<Seq<char>>,
    pub token_expires: Option<u64>,
    pub user_id: Option<Seq<char>>,
}

impl View for Session {
    type V = SessionV;

    open spec fn view(&self) -> SessionV {
        SessionV {
            token: match self.token {
                Some(ref t) => Some(t@),
                None => None,
            },
            token_expires: self.token_expires,
            user_id: match self.user_id {
                Some(ref u) => Some(u@),
                None => None,
            },
        }
    }
}

/// The empty, unauthenticated session value.
pub open spec fn spec_empty_session() -> SessionV {
    SessionV { token: None, token_expires: None, user_id: None }
}

/// The absolute expiry a relative `expires` duration reported at time `now`
/// denotes: non-positive durations expire at once, and the sum saturates at
/// the largest representable time.
pub open spec fn spec_expiry_from(now: u64, expires: i64) -> u64 {
    if expires <= 0 {
        now
    } else if now + expires > u64::MAX {
        u64::MAX
    } else {
        (now + expires) as u64
    }
}

/// Whether a login or refresh response reports success: both flags set and a
/// token present.
pub open spec fn spec_login_success(v: LoginResponseV) -> bool {
    v.authenticated && v.result && v.token is Some
}

/// The session a successful login response installs at time `now`: token,
/// expiry and user id are replaced together, each absent exactly when the
/// server did not report it.
pub open spec fn spec_session_after_login(v: LoginResponseV, now: u64) -> SessionV {
    SessionV {
        token: v.token,
        token_expires: match v.expires {
            Some(e) => Some(spec_expiry_from(now, e)),
            None => None,
        },
        user_id: match v.user {
            Some(u) => Some(u.id),
            None => None,
        },
    }
}

/// The error a login that did not succeed surfaces: the server's message
/// when it rejected the credentials, a fixed text when it reported success
/// without a token.
pub open spec fn spec_login_failure(v: LoginResponseV) -> ErrorV {
    if v.authenticated && v.result {
        ErrorV::Authentication("No token received"@)
    } else {
        ErrorV::Authentication(v.message)
    }
}

/// The session a successful refresh response installs at time `now`: token
/// and expiry are replaced together, the user is kept.
pub open spec fn spec_session_after_refresh(prior: SessionV, v: LoginResponseV, now: u64) -> SessionV {
    SessionV {
        token: v.token,
        token_expires: match v.expires {
            Some(e) => Some(spec_expiry_from(now, e)),
            None => None,
        },
        user_id: prior.user_id,
    }
}

/// The error a refresh that did not succeed surfaces.
pub open spec fn spec_refresh_failure(v: LoginResponseV) -> ErrorV {
    if v.authenticated && v.result {
        ErrorV::Authentication("No token received during refresh"@)
    } else {
        ErrorV::Authentication(v.message)
    }
}

/// Whether a device-code poll response reports completed pairing: both flags
/// set and a token present.
pub open spec fn spec_poll_success(v: DeviceCodeResponseV) -> bool {
    v.authenticated && v.result && v.token is Some
}

/// The session after one poll response: a completed pairing populates it as
/// a password login does (the poll shape reports no expiry, so none is
/// recorded); any other report leaves it untouched.
pub open spec fn spec_session_after_poll(prior: SessionV, v: DeviceCodeResponseV) -> SessionV {
    if spec_poll_success(v) {
        SessionV {
            token: v.token,
            token_expires: None,
            user_id: match v.user {
                Some(u) => Some(u.id),
                None => None,
            },
        }
    } else {
        prior
    }
}

impl Session {
    /// A session is well formed when an absent token implies an absent
    /// expiry and an absent user: nothing is known of a session that holds
    /// no credential.
    pub open spec fn wf(self) -> bool {
        self@.token is None ==> self@.token_expires is None && self@.user_id is None
    }

    /// Whether the token is due for a refresh at time `now`: an expiry is
    /// known and lies within `threshold` seconds of `now` (or has passed).
    pub open spec fn spec_needs_refresh(self, now: u64, threshold: u64) -> bool {
        match self@.token_expires {
            Some(e) => now + threshold > e,
            None => false,
        }
    }

    /// Creates the empty, unauthenticated session.
    pub fn new() -> (s: Session)
        ensures
            s@ == spec_empty_session(),
            s.wf(),
    {
        Session { token: None, token_expires: None, user_id: None }
    }

    /// Reports whether the token is due for a refresh at time `now`.
    pub fn needs_refresh(&self, now: u64, threshold: u64) -> (r: bool)
        ensures
            r == self.spec_needs_refresh(now, threshold),
    {
        match self.token_expires {
            Some(e) => (now as u128) + (threshold as u128) > (e as u128),
            None => false,
        }
    }

    /// Forgets the credential: the session becomes unauthenticated.
    pub fn clear(&mut self)
        ensures
            final(self)@ == spec_empty_session(),
            final(self).wf(),
    {
        self.token = None;
        self.token_expires = None;
        self.user_id = None;
    }

    /// Applies a login response: a success report carrying a token replaces
    /// the token, expiry and user id together; anything else leaves the
    /// session untouched and surfaces the server's message as an
    /// authentication error.
    pub fn apply_login(&mut self, resp: &LoginResponse, now: u64) -> (r: Result<
        (),
        IBroadcastError,
    >)
        requires
            old(self).wf(),
        ensures
            spec_login_success(resp@) ==> r == Ok::<(), IBroadcastError>(()) && final(self)@
                == spec_session_after_login(resp@, now),
            !spec_login_success(resp@) ==> *final(self) == *old(self) && (r matches Err(e) && e@
                == spec_login_failure(resp@)),
            final(self).wf(),
    {
        if resp.authenticated && resp.result {
            match resp.token {
                Some(ref tok) => {
                    self.token = Some(tok.clone());
                    self.token_expires = match resp.expires {
                        Some(e) => Some(expiry_from(now, e)),
                        None => None,
                    };
                    self.user_id = match resp.user {
                        Some(ref u) => Some(u.id.clone()),
                        None => None,
                    };
                    Ok(())
                },
                None => Err(IBroadcastError::Authentication(String::from_str(
                    "No token received",
                ))),
            }
        } else {
            Err(IBroadcastError::Authentication(resp.message.clone()))
        }
    }

    /// Applies a refresh response: a success report carrying a token
    /// replaces the token and expiry together and keeps the user; anything
    /// else drops the stale credential — the session becomes unauthenticated
    /// — and surfaces an authentication error.
    pub fn apply_refresh(&mut self, resp: &LoginResponse, now: u64) -> (r: Result<
        (),
        IBroadcastError,
    >)
        requires
            old(self).wf(),
        ensures
            spec_login_success(resp@) ==> r == Ok::<(), IBroadcastError>(()) && final(self)@
                == spec_session_after_refresh(old(self)@, resp@, now),
            !spec_login_success(resp@) ==> final(self)@ == spec_empty_session() && (r matches Err(
                e,
            ) && e@ == spec_refresh_failure(resp@)),
            final(self).wf(),
    {
        if resp.authenticated && resp.result {
            match resp.token {
                Some(ref tok) => {
                    self.token = Some(tok.clone());
                    self.token_expires = match resp.expires {
                        Some(e) => Some(expiry_from(now, e)),
                        None => None,
                    };
                    Ok(())
                },
                None => {
                    self.clear();
                    Err(IBroadcastError::Authentication(String::from_str(
                        "No token received during refresh",
                    )))
                },
            }
        } else {
            self.clear();
            Err(IBroadcastError::Authentication(resp.message.clone()))
        }
    }

    /// Applies one device-code poll response; see
    /// [`spec_session_after_poll`] for what it installs.
    pub fn apply_poll(&mut self, resp: &DeviceCodeResponse)
        requires
            old(self).wf(),
        ensures
            final(self)@ == spec_session_after_poll(old(self)@, resp@),
            !spec_poll_success(resp@) ==> *final(self) == *old(self),
            final(self).wf(),
    {
        if resp.authenticated && resp.result {
            match resp.token {
                Some(ref tok) => {
                    self.token = Some(tok.clone());
                    self.token_expires = None;
                    self.user_id = match resp.user {
                        Some(ref u) => Some(u.id.clone()),
                        None => None,
                    };
                },
                None => {},
            }
        }
    }
}

/// Computes the absolute expiry a relative duration denotes; see
/// [`spec_expiry_from`].
pub fn expiry_from(now: u64, expires: i64) -> (r: u64)
    ensures
        r == spec_expiry_from(now, expires),
{
    if expires <= 0 {
        now
    } else {
        now.saturating_add(expires as u64)
    }
}

/// Law: a session whose known expiry lies at least `threshold` beyond every
/// time in a batch never has a refresh due at any of those times; a batch of
/// requests over it issues zero refresh calls.
pub proof fn lemma_no_refresh_when_expiry_far(
    s: Session,
    times: Seq<u64>,
    threshold: u64,
    expiry: u64,
)
    requires
        s@.token_expires == Some(expiry),
        forall|i: int| 0 <= i < times.len() ==> times[i] + threshold <= expiry,
    ensures
        forall|i: int| 0 <= i < times.len() ==> !s.spec_needs_refresh(times[i], threshold),
{
}

/// Law: a successful refresh replaces the expiry, and the new expiry is what
/// every later refresh check consults: at any time still at least
/// `threshold` ahead of it, no further refresh is due.
pub proof fn lemma_refresh_updates_expiry(
    prior: SessionV,
    s_after: Session,
    resp: LoginResponseV,
    now: u64,
    later: u64,
    threshold: u64,
)
    requires
        spec_login_success(resp),
        s_after@ == spec_session_after_refresh(prior, resp, now),
        resp.expires matches Some(e) && later + threshold <= spec_expiry_from(now, e),
    ensures
        !s_after.spec_needs_refresh(later, threshold),
{
}

} // verus!
