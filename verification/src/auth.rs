//! Authentication claims and route guards.
//!
//! A signed token carries `Claims`; the surrounding application encodes
//! and decodes it with its JWT library. This module holds what can be
//! decided from plain values: building the claims, reading the token out
//! of an `Authorization` header, the remaining lifetime of a token, and
//! the access-level gates of the private routes.

use vstd::prelude::*;
use crate::app_error::AppError;
use crate::ids::Id;
use vstd::string::StrSliceExecFns;
use crate::text::{chars_to_string, str_chars, str_eq};

verus! {

/// The claims carried by a session token.
#[derive(Debug, Clone)]
pub struct Claims {
    /// The user's identifier, as text.
    pub sub: String,
    /// Expiry as seconds since the Unix epoch.
    pub exp: usize,
    pub access_level: String,
    pub tenant_id: Id,
}

impl Claims {
    /// The claims a fresh session token carries: the subject, its access
    /// level and tenant, expiring `expires_in` seconds after `now`.
    pub fn new(sub: &str, access_level: &str, tenant_id: Id, now: i64, expires_in: u64) -> (r:
        Claims)
        requires
            0 <= now,
            now + expires_in <= usize::MAX,
        ensures
            r.sub@ == sub@,
            r.access_level@ == access_level@,
            r.tenant_id == tenant_id,
            r.exp == now + expires_in,
    {
        Claims {
            sub: sub.to_owned(),
            exp: (now as u64 + expires_in) as usize,
            access_level: access_level.to_owned(),
            tenant_id,
        }
    }
}

/// The `Bearer ` prefix.
pub open spec fn has_bearer_prefix(s: Seq<char>) -> bool {
    s.len() >= 7 && s[0] == 'B' && s[1] == 'e' && s[2] == 'a' && s[3] == 'r' && s[4] == 'e' && s[5]
        == 'r' && s[6] == ' '
}

/// The `Token ` prefix.
pub open spec fn has_token_prefix(s: Seq<char>) -> bool {
    s.len() >= 6 && s[0] == 'T' && s[1] == 'o' && s[2] == 'k' && s[3] == 'e' && s[4] == 'n' && s[5]
        == ' '
}

/// The token text inside an `Authorization` header: the part after a
/// `Bearer ` or `Token ` prefix, or the whole header.
pub open spec fn token_of(s: Seq<char>) -> Seq<char> {
    if has_bearer_prefix(s) {
        s.skip(7)
    } else if has_token_prefix(s) {
        s.skip(6)
    } else {
        s
    }
}

/// Reads the token out of an `Authorization` header.
pub fn extract_token(auth_header: &str) -> (r: String)
    ensures
        r@ == token_of(auth_header@),
{
    let v = str_chars(auth_header);
    let ghost s = auth_header@;
    let n: usize = v.len();
    let skip: usize = if n >= 7 && v[0] == 'B' && v[1] == 'e' && v[2] == 'a' && v[3] == 'r' && v[4]
        == 'e' && v[5] == 'r' && v[6] == ' ' {
        7
    } else if n >= 6 && v[0] == 'T' && v[1] == 'o' && v[2] == 'k' && v[3] == 'e' && v[4] == 'n'
        && v[5] == ' ' {
        6
    } else {
        0
    };
    let mut out: Vec<char> = Vec::new();
    let mut i: usize = skip;
    while i < n
        invariant
            skip <= i <= n,
            n == s.len(),
            v@ == s,
            out@ =~= s.skip(skip as int).take(i - skip),
        decreases n - i,
    {
        out.push(v[i]);
        i = i + 1;
        proof {
            assert(s.skip(skip as int).take(i - skip) =~= s.skip(skip as int).take(
                i - skip - 1,
            ).push(s[i - 1]));
        }
    }
    proof {
        assert(s.skip(skip as int).take(n - skip) =~= s.skip(skip as int));
        if skip == 0 {
            assert(s.skip(0int) =~= s);
        }
    }
    chars_to_string(&out)
}

/// Reads the token out of an `Authorization` header and rejects an empty
/// one, as the middleware did before trying to decode.
pub fn middleware_token(auth_header: &str) -> (r: Result<String, AppError>)
    ensures
        token_of(auth_header@).len() == 0 ==> (r matches Err(e) && e matches AppError::Unauthorized(
            _,
        ) && e.message() matches Some(m) && m@ == "Token não fornecido"@),
        token_of(auth_header@).len() > 0 ==> (r matches Ok(t) && t@ == token_of(auth_header@)),
{
    let token = extract_token(auth_header);
    if token.as_str().unicode_len() == 0 {
        Err(AppError::unauthorized("Token não fornecido"))
    } else {
        Ok(token)
    }
}

/// The remaining lifetime of a token: expiry minus now, as a saturating
/// difference; a long-expired token reports a negative remainder.
pub fn calculate_remaining_expiration(exp: i64, now: i64) -> (r: i64)
    ensures
        r == if exp - now > i64::MAX {
            i64::MAX as int
        } else if exp - now < i64::MIN {
            i64::MIN as int
        } else {
            exp - now
        },
{
    let wide: i128 = (exp as i128) - (now as i128);
    if wide > i64::MAX as i128 {
        i64::MAX
    } else if wide < i64::MIN as i128 {
        i64::MIN
    } else {
        wide as i64
    }
}

/// Admits only the `super_admin` access level; anything else is refused
/// with the route's message.
pub fn require_super_admin(access_level: &str, message: &str) -> (r: Result<(), AppError>)
    ensures
        r is Ok <==> access_level@ == "super_admin"@,
        r matches Err(e) ==> (e matches AppError::Forbidden(_) && e.message() matches Some(m) && m@
            == message@),
{
    if str_eq(access_level, "super_admin") {
        Ok(())
    } else {
        Err(AppError::forbidden(message))
    }
}

/// Admits the `admin` and `super_admin` access levels; anything else is
/// refused with the route's message.
pub fn require_admin(access_level: &str, message: &str) -> (r: Result<(), AppError>)
    ensures
        r is Ok <==> (access_level@ == "admin"@ || access_level@ == "super_admin"@),
        r matches Err(e) ==> (e matches AppError::Forbidden(_) && e.message() matches Some(m) && m@
            == message@),
{
    if str_eq(access_level, "admin") || str_eq(access_level, "super_admin") {
        Ok(())
    } else {
        Err(AppError::forbidden(message))
    }
}

} // verus!
