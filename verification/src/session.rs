//! Sessions: logging in, and recognising the caller of a request by the
//! bearer token it carries.
use vstd::prelude::*;

use crate::credential::{argon2_verifies, check_password, fresh_token, parse_token, phc_parses, token_text, uuid_parse, uuid_text, PasswordCheck};
use crate::model::{Claims, DbError, Token, User};
use crate::reply::Failure;
use crate::text::{bearer_credentials, strip_bearer};
use crate::time::{stamp, Timestamp, HOUR_NANOS, MAX_NANOS};

verus! {

/// Hours a session lasts after login, and after a renewal.
pub const SESSION_HOURS: u8 = 12;

/// A session that has less than this many hours left is renewed when used.
pub const RENEW_BELOW_HOURS: u8 = 1;

/// The token a request's `Authorization` header carries: the UUID after
/// `Bearer `.
pub open spec fn header_token(header: Option<&str>) -> Result<u128, Failure> {
    match header {
        None => Err(Failure::MissingToken),
        Some(h) => match bearer_credentials(h@) {
            None => Err(Failure::MissingToken),
            Some(rest) => match uuid_parse(rest) {
                Some(id) => Ok(id),
                None => Err(Failure::MissingToken),
            },
        },
    }
}

/// Reads the session token of a request from its `Authorization` header
/// value (`None` where the request has none, or none that is text).
pub fn token_from_header(header: Option<&str>) -> (r: Result<u128, Failure>)
    ensures
        r == header_token(header),
{
    match header {
        None => Err(Failure::MissingToken),
        Some(h) => match strip_bearer(h) {
            None => Err(Failure::MissingToken),
            Some(rest) => match parse_token(rest) {
                Some(id) => Ok(id),
                None => Err(Failure::MissingToken),
            },
        },
    }
}

/// The verdict on a session: whose it is, and the new end of the session
/// where it is to be renewed.
#[derive(Clone, Copy, Debug, PartialEq, Eq)]
pub struct TokenCheck {
    pub user_id: usize,
    pub renewed_until: Option<Timestamp>,
}

/// The verdict on the session that a token lookup found, at `now`.
pub open spec fn token_check(found: Result<Option<Token>, DbError>, now: Timestamp) -> Result<TokenCheck, Failure> {
    match found {
        Ok(Some(t)) => if t.expired_date@ < now@ {
            Err(Failure::TokenExpired)
        } else if t.expired_date@ < now@ + RENEW_BELOW_HOURS * HOUR_NANOS {
            Ok(TokenCheck { user_id: t.user_id, renewed_until: Some(stamp(now@ + SESSION_HOURS * HOUR_NANOS)) })
        } else {
            Ok(TokenCheck { user_id: t.user_id, renewed_until: None })
        },
        _ => Err(Failure::InvalidToken),
    }
}

/// Judges the session that looking up the request's token found: unknown
/// and expired sessions are refused; one with less than an hour left
/// is renewed to last twelve hours from `now`.
pub fn check_token(found: Result<Option<Token>, DbError>, now: Timestamp) -> (r: Result<TokenCheck, Failure>)
    requires
        now@ + SESSION_HOURS * HOUR_NANOS <= MAX_NANOS,
    ensures
        r == token_check(found, now),
{
    match found {
        Ok(Some(t)) => {
            if t.expired_date.is_before(&now) {
                Err(Failure::TokenExpired)
            } else if t.expired_date.is_before(&now.plus_hours(RENEW_BELOW_HOURS)) {
                Ok(TokenCheck { user_id: t.user_id, renewed_until: Some(now.plus_hours(SESSION_HOURS)) })
            } else {
                Ok(TokenCheck { user_id: t.user_id, renewed_until: None })
            }
        },
        _ => Err(Failure::InvalidToken),
    }
}

/// The caller, from the lookup of the session's account.
pub fn claims_for(found: Result<Option<User>, DbError>) -> (r: Result<Claims, Failure>)
    ensures
        r == match found {
            Err(_) => Err(Failure::Internal),
            Ok(None) => Err(Failure::UnknownUser),
            Ok(Some(u)) => Ok(Claims { user_id: u.id, permission: u.permission }),
        },
{
    match found {
        Err(_) => Err(Failure::Internal),
        Ok(None) => Err(Failure::UnknownUser),
        Ok(Some(u)) => Ok(Claims { user_id: u.id, permission: u.permission }),
    }
}

/// The verdict on a password given at login, against the account's stored
/// hash: an unreadable hash is the server's fault.
pub open spec fn password_verdict(password: Seq<char>, stored: Seq<char>) -> Result<(), Failure> {
    if !phc_parses(stored) {
        Err(Failure::Internal)
    } else if argon2_verifies(password, stored) {
        Ok(())
    } else {
        Err(Failure::WrongCredentials)
    }
}

/// The account that a login opens: the one with the name, if the password
/// matches its hash.
pub open spec fn login_verdict(found: Result<Option<User>, DbError>, password: Seq<char>) -> Result<User, Failure> {
    match found {
        Ok(Some(u)) => match password_verdict(password, u.password@) {
            Ok(()) => Ok(u),
            Err(f) => Err(f),
        },
        _ => Err(Failure::WrongCredentials),
    }
}

/// Checks a login: the lookup of the account by name, then the password.
pub fn check_login(found: Result<Option<User>, DbError>, password: &str) -> (r: Result<User, Failure>)
    ensures
        r == login_verdict(found, password@),
{
    match found {
        Ok(Some(u)) => match check_password(password, u.password.as_str()) {
            PasswordCheck::Malformed => Err(Failure::Internal),
            PasswordCheck::Mismatch => Err(Failure::WrongCredentials),
            PasswordCheck::Matches => Ok(u),
        },
        _ => Err(Failure::WrongCredentials),
    }
}

/// A session to be stored at login.
#[derive(Clone, Copy, Debug, PartialEq, Eq)]
pub struct NewToken {
    pub token: u128,
    pub expired_date: Timestamp,
    pub user_id: usize,
}

/// A fresh session for `user_id` that ends twelve hours after `now`.
pub fn issue_token(user_id: usize, now: Timestamp) -> (r: NewToken)
    requires
        now@ + SESSION_HOURS * HOUR_NANOS <= MAX_NANOS,
    ensures
        r.user_id == user_id,
        r.expired_date == stamp(now@ + SESSION_HOURS * HOUR_NANOS),
        r.expired_date@ == now@ + SESSION_HOURS * HOUR_NANOS,
{
    NewToken { token: fresh_token(), expired_date: now.plus_hours(SESSION_HOURS), user_id }
}

/// What a successful login hands back.
#[derive(Debug, PartialEq, Eq)]
pub struct LoginGrant {
    /// The session token as text, to be sent back as `Bearer <token>`.
    pub access_token: String,
    /// The permission of the account.
    pub permission: String,
}

/// The answer to a login, once storing its session is done.
pub fn grant_login(stored: Result<(), DbError>, token: &NewToken, user: User) -> (r: Result<LoginGrant, Failure>)
    ensures
        stored is Err ==> r == Err::<LoginGrant, Failure>(Failure::Internal),
        stored is Ok ==> (r matches Ok(g) && g.access_token@ == uuid_text(token.token)
            && uuid_parse(g.access_token@) == Some(token.token) && g.permission == user.permission),
{
    match stored {
        Err(_) => Err(Failure::Internal),
        Ok(()) => Ok(LoginGrant { access_token: token_text(token.token), permission: user.permission }),
    }
}

} // verus!
