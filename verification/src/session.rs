//! The session guard's computation: extracting the bearer token from a
//! cookie header and the shape of the authenticated identity. The token is
//! the value of the first `;`-separated cookie whose trimmed form starts
//! with `auth_token=`; decoding and verifying the token is the credential
//! store's work and happens outside this library.

use vstd::prelude::*;
use vstd::string::*;
use crate::strings::{split_on, split_spec, starts_with, trim, trim_spec};

verus! {

broadcast use vstd::string::group_string_axioms;

/// Claims carried by a session token: the structured subject identity and
/// the expiry instant in unix seconds.
#[derive(Clone, Debug)]
pub struct Claims {
    pub sub: Session,
    pub exp: usize,
}

/// The authenticated identity attached to a request after credential
/// validation; request-scoped, never persisted.
#[derive(Clone, Debug)]
pub struct Session {
    pub user_id: String,
    pub user_email: String,
}

impl Session {
    pub fn new(user_email: String, user_id: String) -> (s: Session)
        ensures
            s.user_email == user_email,
            s.user_id == user_id,
    {
        Session { user_email, user_id }
    }
}

/// The body of a login request.
#[derive(Clone, Debug)]
pub struct LoginRequest {
    pub email: String,
    pub password: String,
}

/// A freshly issued session token.
#[derive(Clone, Debug)]
pub struct TokenResponse {
    pub token: String,
}

/// How long an issued token lives: 24 hours, in seconds.
pub const TOKEN_TTL_SECS: i64 = 86400;

/// The expiry instant of a token issued at `now`.
pub fn token_expiry(now: i64) -> (r: i64)
    requires
        now + TOKEN_TTL_SECS <= i64::MAX,
    ensures
        r == now + TOKEN_TTL_SECS,
{
    now + TOKEN_TTL_SECS
}

/// The cookie name whose value carries the session token, with the
/// separating equals sign.
pub open spec fn auth_cookie_prefix() -> Seq<char> {
    "auth_token="@
}

/// The token a single cookie segment yields: the remainder of its trimmed
/// form after `auth_token=`, if that is its prefix.
pub open spec fn segment_token(seg: Seq<char>) -> Option<Seq<char>> {
    let t = trim_spec(seg);
    if auth_cookie_prefix().is_prefix_of(t) {
        Some(t.skip(auth_cookie_prefix().len() as int))
    } else {
        None
    }
}

/// The token of the first segment that yields one.
pub open spec fn first_token(parts: Seq<Seq<char>>) -> Option<Seq<char>>
    decreases parts.len(),
{
    if parts.len() == 0 {
        None
    } else if segment_token(parts.first()) is Some {
        segment_token(parts.first())
    } else {
        first_token(parts.drop_first())
    }
}

/// The session token carried by a cookie header, if any.
pub open spec fn cookie_token_spec(header: Seq<char>) -> Option<Seq<char>> {
    first_token(split_spec(header, ';'))
}

/// Scans the segments in order for the first that yields a token.
fn first_token_exec(parts: &Vec<String>) -> (r: Option<String>)
    ensures
        match r {
            Some(t) => first_token(parts.deep_view()) == Some(t@),
            None => first_token(parts.deep_view()) is None,
        },
{
    proof {
        reveal_strlit("auth_token=");
        assert(auth_cookie_prefix().len() == 11);
        assert(parts.deep_view().skip(0) =~= parts.deep_view());
    }
    let n = parts.len();
    let mut i: usize = 0;
    while i < n
        invariant
            0 <= i <= n,
            n == parts@.len(),
            first_token(parts.deep_view()) == first_token(parts.deep_view().skip(i as int)),
        decreases n - i,
    {
        proof {
            reveal_strlit("auth_token=");
            assert(auth_cookie_prefix().len() == 11);
            assert(parts.deep_view().skip(i as int).first() == parts.deep_view()[i as int]);
            assert(parts.deep_view().skip(i as int).drop_first() =~= parts.deep_view().skip(
                i as int + 1,
            ));
        }
        let t = trim(parts[i].as_str());
        let tlen = t.unicode_len();
        if starts_with(t, "auth_token=") {
            let val = t.substring_char(11, tlen);
            proof {
                assert(auth_cookie_prefix().len() == 11);
                assert(val@ =~= trim_spec(parts.deep_view()[i as int]).skip(11));
                assert(segment_token(parts.deep_view()[i as int]) == Some(val@));
            }
            return Some(String::from_str(val));
        }
        i += 1;
    }
    proof {
        assert(parts.deep_view().skip(n as int) =~= Seq::<Seq<char>>::empty());
    }
    None
}

/// Extracts the session token from a cookie header: the value of the first
/// cookie named `auth_token`, or `None` when no such cookie is present —
/// the request is then rejected as unauthenticated before reaching any
/// handler.
pub fn extract_auth_token(header: &str) -> (r: Option<String>)
    ensures
        match r {
            Some(t) => cookie_token_spec(header@) == Some(t@),
            None => cookie_token_spec(header@) is None,
        },
{
    let parts = split_on(header, ';');
    first_token_exec(&parts)
}

} // verus!
