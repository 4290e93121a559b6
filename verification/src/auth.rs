use vstd::prelude::*;
use vstd::string::StrSliceExecFns;

use crate::text::{spec_has_prefix, str_eq, str_has_prefix};

verus! {

/// How long an issued token stays valid, in seconds.
pub const TOKEN_LIFETIME_SECONDS: u64 = 86400;

/// The claims carried inside an issued token.
#[derive(Debug, Clone)]
pub struct Claims {
    /// The authenticated user name.
    pub sub: String,
    pub uid: u32,
    /// Expiry, seconds since the Unix epoch.
    pub exp: usize,
}

/// A login request.
#[derive(Debug, Clone)]
pub struct LoginPayload {
    pub username: String,
    pub password: String,
}

/// A successful login's answer.
#[derive(Debug, Clone)]
pub struct AuthResponse {
    pub token: String,
}

/// The identity extracted from a request's token.
#[derive(Debug, Clone)]
pub struct AuthUser {
    pub username: String,
    pub uid: u32,
}

/// Whether a login may proceed at all: the root account, by name or
/// by uid, is never allowed to log in.
pub fn login_permitted(username: &str, uid: u32) -> (r: bool)
    ensures
        r == (username@ != "root"@ && uid != 0),
{
    !str_eq(username, "root") && uid != 0
}

/// The claims for a fresh token: the user, their uid, and an expiry
/// one token lifetime from now.
pub fn claims_for(username: &String, uid: u32, now_secs: u64) -> (c: Claims)
    requires
        now_secs + TOKEN_LIFETIME_SECONDS <= usize::MAX,
    ensures
        c.sub@ == username@,
        c.uid == uid,
        c.exp == now_secs + TOKEN_LIFETIME_SECONDS,
{
    Claims {
        sub: username.clone(),
        uid,
        exp: (now_secs + TOKEN_LIFETIME_SECONDS) as usize,
    }
}

/// The token part of a bearer authorization header, when the header
/// has the bearer shape.
pub fn strip_bearer(header: &str) -> (r: Option<String>)
    ensures
        r is Some <==> spec_has_prefix(header@, "Bearer "@),
        r matches Some(t) ==> t@ == header@.skip("Bearer "@.len() as int),
{
    proof {
        reveal_strlit("Bearer ");
    }
    if !str_has_prefix(header, "Bearer ") {
        return None;
    }
    let len = header.unicode_len();
    let token = header.substring_char(7, len);
    proof {
        assert(token@ =~= header@.skip(7));
    }
    Some(token.to_owned())
}

} // verus!
