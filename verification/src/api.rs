//! What the `/u/auth` endpoints answer.
//!
//! The endpoints hand out a key to a user whose credentials were verified,
//! trade a valid key in for a new one, and revoke a key. A key is valid for
//! a fixed span from the instant at which it was handed out. Whoever
//! presents a key that cannot be traded in is told that they are not
//! authorized, and not why; whoever revokes a key is told that it is done,
//! whether there was such a key or not.

use crate::authkey::Authkey;
use crate::authkey::AuthkeyView;
use crate::authkey::is_key_text;
use crate::authmanager::AuthManager;
use crate::authmanager::Sessions;
use crate::authmanager::owner_at;
use crate::authmanager::refresh_grant;
use crate::authmanager::refreshed;
use crate::authmanager::registered;
use crate::error::VError;
use crate::time::Timestamp;
use crate::time::Validity;
use crate::time::nanos_of;
use vstd::prelude::*;

verus! {

/// The seconds for which a key is valid once it was handed out.
pub const AUTHKEY_VALIDITY_SECS: u64 = 10;

/// The request structure for the `/u/auth/1 - PATCH` endpoint.
pub struct PATCHReq1 {
    /// The `authkey` to refresh.
    pub authkey: String,
}

/// The request structure for the `/u/auth/1 - DELETE` endpoint.
pub struct DELETEReq1 {
    /// The `authkey` to revoke.
    pub authkey: String,
}

/// The code by which the API tells that a request failed on the server's
/// side.
pub const INTERNAL_ERROR_CODE: u32 = 1000;

/// How a request ended.
#[derive(Clone, Copy, Debug, PartialEq, Eq, Structural)]
pub enum Status {
    /// `200 - OK`
    Success,
    /// `401 - UNAUTHORIZED`
    Unauthorized,
    /// `500 - INTERNAL SERVER ERROR`
    InternalServerError,
}

impl Status {
    /// The status code that goes out.
    pub fn code(&self) -> (code: u16)
        ensures
            code == match self {
                Status::Success => 200u16,
                Status::Unauthorized => 401u16,
                Status::InternalServerError => 500u16,
            },
    {
        match self {
            Status::Success => 200,
            Status::Unauthorized => 401,
            Status::InternalServerError => 500,
        }
    }
}

/// What goes out of an error: the code of the API for a failure on the
/// server's side, and what the error says, without its context.
#[derive(Debug)]
pub struct ErrorBody {
    pub code: u32,
    pub message: String,
}

/// The answer to a request that failed on the server's side.
#[derive(Debug)]
pub struct ErrorResponse {
    pub status: Status,
    pub body: ErrorBody,
}

impl ErrorResponse {
    /// The answer that tells of `error`: what the enclosed error says, and
    /// nothing of the context in which it came up.
    pub fn of(error: &VError) -> (res: Self)
        ensures
            res.status == Status::InternalServerError,
            res.body.code == INTERNAL_ERROR_CODE,
            res.body.message@ == error.error.text(),
    {
        ErrorResponse {
            status: Status::InternalServerError,
            body: ErrorBody { code: INTERNAL_ERROR_CODE, message: error.error.to_string() },
        }
    }
}

/// What goes out of a key: its key string, and the instant at which it
/// expires in whole seconds since the UNIX epoch.
#[derive(Debug)]
pub struct AuthkeyBody {
    pub authkey: String,
    pub expires: u128,
}

/// The answer to a request for a key.
#[derive(Debug)]
pub struct AuthResponse {
    pub status: Status,
    /// The key that was handed out, if one was.
    pub body: Option<AuthkeyBody>,
}

impl AuthResponse {
    /// Whether the answer hands out a key with the key string `key` that
    /// expires at `expires`, in nanoseconds since the UNIX epoch.
    pub open spec fn grants(&self, key: Seq<char>, expires: nat) -> bool {
        &&& self.status == Status::Success
        &&& self.body matches Some(body)
        &&& body.authkey@ == key
        &&& body.expires == expires / 1_000_000_000
    }

    /// Whether the answer is that the caller is not authorized.
    pub open spec fn refuses(&self) -> bool {
        self.status == Status::Unauthorized && self.body is None
    }

    /// The answer that hands out `key`.
    pub fn granted(key: &Authkey) -> (res: Self)
        ensures
            res.grants(key@.key, key@.expires),
    {
        AuthResponse {
            status: Status::Success,
            body: Some(
                AuthkeyBody { authkey: key.key().to_owned(), expires: key.expires().unix_secs() },
            ),
        }
    }

    /// The answer that the caller is not authorized.
    pub fn unauthorized() -> (res: Self)
        ensures
            res.refuses(),
    {
        AuthResponse { status: Status::Unauthorized, body: None }
    }

    /// The answer to a request that ended with `key`: the key if there is
    /// one, and else that the caller is not authorized.
    pub fn of(key: Option<Authkey>) -> (res: Self)
        ensures
            match key {
                Some(k) => res.grants(k@.key, k@.expires),
                None => res.refuses(),
            },
    {
        match key {
            Some(k) => AuthResponse::granted(&k),
            None => AuthResponse::unauthorized(),
        }
    }
}

/// The span for which a key is valid once handed out, in nanoseconds.
pub open spec fn validity_nanos() -> nat {
    nanos_of(AUTHKEY_VALIDITY_SECS, 0)
}

/// Whether `res` and `after` are what comes of handing `uid` a key at `now`
/// under the key string `key`: the answer hands that key out, and the key
/// is registered with the keys of `before`.
pub open spec fn issued_at(
    before: Sessions,
    after: Sessions,
    res: AuthResponse,
    uid: u32,
    now: Timestamp,
    key: Seq<char>,
) -> bool {
    &&& now.on_clock()
    &&& is_key_text(key)
    &&& res.grants(key, now@ + validity_nanos())
    &&& after == registered(before, AuthkeyView::generated(uid, validity_nanos(), now@, key))
}

/// Whether `res` and `after` are what comes of trading `key` in at `now`.
/// Where `key` authenticates a user of `before` at `now`, the answer hands
/// out a key for the fixed span from `now` on, which stands with the keys of
/// `before` in place of the old one. Where it authenticates nobody, the
/// caller is told that they are not authorized, and `key` is dropped.
pub open spec fn renewed_at(
    before: Sessions,
    after: Sessions,
    res: AuthResponse,
    key: Seq<char>,
    now: Timestamp,
) -> bool {
    &&& now.on_clock()
    &&& match res.body {
        Some(body) => {
            &&& is_key_text(body.authkey@)
            &&& owner_at(before, key, now@) is Some
            &&& res.grants(body.authkey@, now@ + validity_nanos())
            &&& after == refreshed(before, key, validity_nanos(), now@, body.authkey@)
        },
        None => {
            &&& res.refuses()
            &&& owner_at(before, key, now@) is None
            &&& after == before.remove(key)
        },
    }
}

/// `/u/auth/1 - DELETE`: revokes a key.
///
/// Drops what is registered under the key string, valid or not, and leaves
/// every other key as it is. The answer is `200 - OK` even where no such key
/// was registered.
pub fn u_auth_delete_1(velocity: &mut AuthManager, payload: &DELETEReq1) -> (status: Status)
    requires
        old(velocity).wf(),
    ensures
        final(velocity).wf(),
        final(velocity)@ == old(velocity)@.remove(payload.authkey@),
        status == Status::Success,
{
    let _ = velocity.drop_key(payload.authkey.as_str());
    Status::Success
}

/// `/u/auth/1 - POST`: authenticates a user.
///
/// `verified` is the id of the user whose credentials were verified, or
/// `None` where they were not. A verified user gets a new key that is valid
/// for the fixed span from now on, and the key is registered; anyone else
/// is told that they are not authorized, and nothing is registered.
pub fn u_auth_post_1(velocity: &mut AuthManager, verified: Option<u32>) -> (res: AuthResponse)
    requires
        old(velocity).wf(),
    ensures
        final(velocity).wf(),
        match verified {
            Some(uid) => exists|now: Timestamp, key: Seq<char>| #[trigger]
                issued_at(old(velocity)@, final(velocity)@, res, uid, now, key),
            None => res.refuses() && final(velocity)@ == old(velocity)@,
        },
{
    match verified {
        Some(uid) => {
            let key = velocity.generate_now(uid, Validity::from_secs(AUTHKEY_VALIDITY_SECS));
            let res = AuthResponse::granted(&key);
            proof {
                let now = choose|now: Timestamp| #[trigger]
                    now.on_clock() && key@ == AuthkeyView::generated(
                        uid,
                        validity_nanos(),
                        now@,
                        key@.key,
                    );
                assert(issued_at(old(velocity)@, velocity@, res, uid, now, key@.key));
            }
            res
        },
        None => AuthResponse::unauthorized(),
    }
}

/// `/u/auth/1 - PATCH`: renews an existing key.
///
/// Takes an existing, valid key and exchanges it for a new one that is
/// valid for the fixed span from now on. The old key is dropped. Where the
/// key is not registered or has expired, the caller is told that they are
/// not authorized, and an expired key is dropped all the same.
pub fn u_auth_patch_1(velocity: &mut AuthManager, payload: &PATCHReq1) -> (res: AuthResponse)
    requires
        old(velocity).wf(),
    ensures
        final(velocity).wf(),
        exists|now: Timestamp| #[trigger]
            renewed_at(old(velocity)@, final(velocity)@, res, payload.authkey@, now),
{
    let granted = velocity.refresh_key(
        payload.authkey.as_str(),
        Validity::from_secs(AUTHKEY_VALIDITY_SECS),
    );
    let ghost outcome = granted;
    let res = AuthResponse::of(granted);
    proof {
        let now = choose|now: Timestamp| #[trigger]
            now.on_clock() && match outcome {
                Some(k) => {
                    &&& is_key_text(k@.key)
                    &&& Some(k@) == refresh_grant(
                        old(velocity)@,
                        payload.authkey@,
                        validity_nanos(),
                        now@,
                        k@.key,
                    )
                    &&& velocity@ == refreshed(
                        old(velocity)@,
                        payload.authkey@,
                        validity_nanos(),
                        now@,
                        k@.key,
                    )
                },
                None => {
                    &&& owner_at(old(velocity)@, payload.authkey@, now@) is None
                    &&& velocity@ == old(velocity)@.remove(payload.authkey@)
                },
            };
        assert(renewed_at(old(velocity)@, velocity@, res, payload.authkey@, now));
    }
    res
}

} // verus!
