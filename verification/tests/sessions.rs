use bookshelf::account::password_hash;
use bookshelf::model::{Claims, DbError, Token, User};
use bookshelf::reply::Failure;
use bookshelf::session::{check_login, check_token, claims_for, grant_login, issue_token, token_from_header, NewToken, TokenCheck};
use bookshelf::time::Timestamp;

const HOUR: i128 = 3_600_000_000_000;
const BASE: i128 = 1_717_200_000 * 1_000_000_000; // 2024-06-01T00:00:00Z

fn at(nanos: i128) -> Timestamp {
    Timestamp::from_nanosecond(nanos).unwrap()
}

fn user(password: &str, permission: &str) -> User {
    User {
        id: 7,
        username: "reader".to_string(),
        password: password.to_string(),
        permission: permission.to_string(),
        phone: None,
        email: None,
        register_date: at(BASE),
    }
}

fn token(expires: i128) -> Token {
    Token { id: 1, token: 42, expired_date: at(expires), user_id: 7 }
}

#[test]
fn header_without_token_is_refused() {
    assert_eq!(token_from_header(None), Err(Failure::MissingToken));
    assert_eq!(token_from_header(Some("Basic abc")), Err(Failure::MissingToken));
    assert_eq!(token_from_header(Some("Bearer not-a-uuid")), Err(Failure::MissingToken));
}

#[test]
fn header_token_is_read() {
    let r = token_from_header(Some("Bearer 550e8400-e29b-41d4-a716-446655440000"));
    assert_eq!(r, Ok(0x550e8400_e29b_41d4_a716_446655440000u128));
}

#[test]
fn unknown_session_is_refused() {
    assert_eq!(check_token(Ok(None), at(BASE)), Err(Failure::InvalidToken));
    assert_eq!(check_token(Err(DbError), at(BASE)), Err(Failure::InvalidToken));
}

#[test]
fn expired_session_is_refused() {
    assert_eq!(check_token(Ok(Some(token(BASE - 1))), at(BASE)), Err(Failure::TokenExpired));
}

#[test]
fn session_ending_now_is_accepted_and_renewed() {
    assert_eq!(
        check_token(Ok(Some(token(BASE))), at(BASE)),
        Ok(TokenCheck { user_id: 7, renewed_until: Some(at(BASE + 12 * HOUR)) })
    );
}

#[test]
fn session_with_under_an_hour_is_renewed() {
    assert_eq!(
        check_token(Ok(Some(token(BASE + HOUR - 1))), at(BASE)),
        Ok(TokenCheck { user_id: 7, renewed_until: Some(at(BASE + 12 * HOUR)) })
    );
}

#[test]
fn session_with_an_hour_left_is_not_renewed() {
    assert_eq!(
        check_token(Ok(Some(token(BASE + HOUR))), at(BASE)),
        Ok(TokenCheck { user_id: 7, renewed_until: None })
    );
    assert_eq!(
        check_token(Ok(Some(token(BASE + 5 * HOUR))), at(BASE)),
        Ok(TokenCheck { user_id: 7, renewed_until: None })
    );
}

#[test]
fn claims_from_account() {
    assert_eq!(claims_for(Err(DbError)), Err(Failure::Internal));
    assert_eq!(claims_for(Ok(None)), Err(Failure::UnknownUser));
    assert_eq!(
        claims_for(Ok(Some(user("x", "manager")))),
        Ok(Claims { user_id: 7, permission: "manager".to_string() })
    );
}

#[test]
fn is_manager_cases() {
    assert!(Claims { user_id: 1, permission: "manager".to_string() }.is_manager());
    assert!(!Claims { user_id: 1, permission: "guest".to_string() }.is_manager());
    assert!(!Claims { user_id: 1, permission: "Manager".to_string() }.is_manager());
}

#[test]
fn login_with_unknown_name_is_refused() {
    assert_eq!(check_login(Ok(None), "abcd1234"), Err(Failure::WrongCredentials));
    assert_eq!(check_login(Err(DbError), "abcd1234"), Err(Failure::WrongCredentials));
}

#[test]
fn login_with_unreadable_hash_is_internal_error() {
    assert_eq!(check_login(Ok(Some(user("plain-text", "guest"))), "plain-text"), Err(Failure::Internal));
}

#[test]
fn login_checks_password() {
    let hash = password_hash("abcd1234").unwrap();
    assert_ne!(hash, "abcd1234");
    assert_eq!(check_login(Ok(Some(user(&hash, "guest"))), "abcd1235"), Err(Failure::WrongCredentials));
    assert_eq!(check_login(Ok(Some(user(&hash, "guest"))), "abcd1234"), Ok(user(&hash, "guest")));
}

#[test]
fn issued_token_lasts_twelve_hours() {
    let t = issue_token(7, at(BASE));
    assert_eq!(t.user_id, 7);
    assert_eq!(t.expired_date, at(BASE + 12 * HOUR));
    let u = issue_token(7, at(BASE));
    assert_ne!(t.token, u.token);
}

#[test]
fn failed_session_store_is_internal_error() {
    let t = issue_token(7, at(BASE));
    assert_eq!(grant_login(Err(DbError), &t, user("x", "guest")), Err(Failure::Internal));
}

#[test]
fn login_token_authenticates() {
    let t = issue_token(7, at(BASE));
    let grant = grant_login(Ok(()), &t, user("x", "guest")).unwrap();
    assert_eq!(grant.permission, "guest");
    assert_eq!(grant.access_token.len(), 36);
    let header = format!("Bearer {}", grant.access_token);
    assert_eq!(token_from_header(Some(&header)), Ok(t.token));
    let stored = Token { id: 3, token: t.token, expired_date: t.expired_date, user_id: t.user_id };
    let c = check_token(Ok(Some(stored)), at(BASE + 12 * HOUR)).unwrap();
    assert_eq!(c.user_id, 7);
    assert_eq!(check_token(Ok(Some(stored)), at(BASE + 12 * HOUR + 1)), Err(Failure::TokenExpired));
}

#[test]
fn session_renewal_extends() {
    let now = at(BASE);
    let c = check_token(Ok(Some(token(BASE + HOUR - 1))), now).unwrap();
    let end = c.renewed_until.unwrap();
    assert_eq!(end, at(BASE + 12 * HOUR));
    let renewed = Token { expired_date: end, ..token(0) };
    let again = check_token(Ok(Some(renewed)), at(BASE + HOUR)).unwrap();
    assert_eq!(again.renewed_until, None);
    let late = check_token(Ok(Some(renewed)), at(BASE + 11 * HOUR)).unwrap();
    assert_eq!(late.renewed_until, None);
    let later = check_token(Ok(Some(renewed)), at(BASE + 11 * HOUR + 1)).unwrap();
    assert_eq!(later.renewed_until, Some(at(BASE + 23 * HOUR + 1)));
}

#[test]
fn stored_password_logs_in() {
    let hash = password_hash("s3cretpass").unwrap();
    assert!(check_login(Ok(Some(user(&hash, "guest"))), "s3cretpass").is_ok());
}

#[test]
fn token_text_is_hyphenated_lower_hex() {
    let t = NewToken { token: 0x550e8400_e29b_41d4_a716_446655440000u128, expired_date: at(BASE), user_id: 1 };
    let grant = grant_login(Ok(()), &t, user("x", "manager")).unwrap();
    assert_eq!(grant.access_token, "550e8400-e29b-41d4-a716-446655440000");
    assert_eq!(grant.permission, "manager");
}
