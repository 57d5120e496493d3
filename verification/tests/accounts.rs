use bookshelf::account::{admin_account, borrowed_count, check_new_password, check_registration, check_username_free, count_active, guest_account, needs_admin, select_users, user_info, UserInfo, ADMIN_PASSWORD_LEN};
use bookshelf::model::{Claims, DbError, Record, User};
use bookshelf::reply::Failure;
use bookshelf::session::check_login;
use bookshelf::step::{may_act_for, require_manager, require_ok, require_row, resolve_user_target};
use bookshelf::time::Timestamp;

const BASE: i128 = 1_717_200_000 * 1_000_000_000;

fn at(nanos: i128) -> Timestamp {
    Timestamp::from_nanosecond(nanos).unwrap()
}

fn user(id: usize, name: &str) -> User {
    User {
        id,
        username: name.to_string(),
        password: String::new(),
        permission: "guest".to_string(),
        phone: Some("123".to_string()),
        email: None,
        register_date: at(BASE),
    }
}

fn loan(id: usize, returned: bool) -> Record {
    Record {
        id,
        borrow_date: at(BASE),
        expire_date: at(BASE + 1),
        return_date: if returned { Some(at(BASE + 2)) } else { None },
        user_id: 1,
        book_id: id,
    }
}

fn claims(user_id: usize, permission: &str) -> Claims {
    Claims { user_id, permission: permission.to_string() }
}

#[test]
fn registration_rules() {
    assert_eq!(check_registration("ab", "abcd1234"), Err(Failure::BadUsername));
    assert_eq!(check_registration("ab", "x"), Err(Failure::BadUsername));
    assert_eq!(check_registration("reader", "abcdefgh"), Err(Failure::BadPassword));
    assert_eq!(check_registration("reader", "abcd1234"), Ok(()));
    assert_eq!(check_new_password("1234567a"), Ok(()));
    assert_eq!(check_new_password("1234567"), Err(Failure::BadPassword));
}

#[test]
fn username_must_be_free() {
    assert_eq!(check_username_free(Err(DbError)), Err(Failure::Internal));
    assert_eq!(check_username_free(Ok(1)), Err(Failure::UsernameTaken));
    assert_eq!(check_username_free(Ok(0)), Ok(()));
}

#[test]
fn registered_account_is_guest_and_logs_in() {
    let account = guest_account("reader".to_string(), "abcd1234", at(BASE)).unwrap();
    assert_eq!(account.username, "reader");
    assert_eq!(account.permission, "guest");
    assert_eq!(account.register_date, at(BASE));
    assert_ne!(account.password, "abcd1234");
    let stored = User {
        id: 5,
        username: account.username.clone(),
        password: account.password.clone(),
        permission: account.permission.clone(),
        phone: None,
        email: None,
        register_date: account.register_date,
    };
    assert!(check_login(Ok(Some(stored)), "abcd1234").is_ok());
}

#[test]
fn first_admin_only_on_empty_store() {
    assert!(needs_admin(Ok(0)));
    assert!(!needs_admin(Ok(3)));
    assert!(!needs_admin(Err(DbError)));
}

#[test]
fn first_admin_account() {
    let admin = admin_account(at(BASE)).unwrap();
    assert_eq!(admin.account.username, "admin");
    assert_eq!(admin.account.permission, "manager");
    assert_eq!(admin.password.len(), ADMIN_PASSWORD_LEN);
    assert!(admin.password.chars().all(|c| c.is_ascii_alphanumeric()));
    let stored = User {
        id: 1,
        username: "admin".to_string(),
        password: admin.account.password.clone(),
        permission: "manager".to_string(),
        phone: None,
        email: None,
        register_date: at(BASE),
    };
    assert!(check_login(Ok(Some(stored)), &admin.password).is_ok());
}

#[test]
fn borrowed_books_count_active_loans() {
    let loans = vec![loan(1, false), loan(2, true), loan(3, false)];
    assert_eq!(count_active(&loans), 2);
    assert_eq!(borrowed_count(&Ok(loans)), 2);
    assert_eq!(borrowed_count(&Err(DbError)), 0);
    assert_eq!(count_active(&vec![]), 0);
}

#[test]
fn user_listing() {
    assert_eq!(
        user_info(user(3, "Alice"), 2),
        UserInfo { id: 3, username: "Alice".to_string(), phone: Some("123".to_string()), email: None, borrowed_books: 2 }
    );
}

#[test]
fn user_search_ignores_case() {
    let users = vec![user(1, "Alice"), user(2, "bob"), user(3, "MALICE")];
    assert_eq!(select_users(&users, "ALI"), vec![0, 2]);
    assert_eq!(select_users(&users, "b"), vec![1]);
    assert_eq!(select_users(&users, ""), vec![0, 1, 2]);
    assert_eq!(select_users(&users, "zz"), Vec::<usize>::new());
}

#[test]
fn who_may_act() {
    assert_eq!(require_manager(&claims(1, "manager")), Ok(()));
    assert_eq!(require_manager(&claims(1, "guest")), Err(Failure::Forbidden));
    assert_eq!(may_act_for(&claims(1, "guest"), 1), Ok(()));
    assert_eq!(may_act_for(&claims(1, "guest"), 2), Err(Failure::Forbidden));
    assert_eq!(may_act_for(&claims(1, "manager"), 2), Ok(()));
}

#[test]
fn database_answers() {
    assert_eq!(require_row::<u8>(Err(DbError), Failure::Internal, Failure::UserNotFound), Err(Failure::Internal));
    assert_eq!(require_row::<u8>(Ok(None), Failure::Internal, Failure::UserNotFound), Err(Failure::UserNotFound));
    assert_eq!(require_row(Ok(Some(4u8)), Failure::Internal, Failure::UserNotFound), Ok(4));
    assert_eq!(require_ok::<()>(Err(DbError), Failure::DeleteUserFailed), Err(Failure::DeleteUserFailed));
    assert_eq!(require_ok(Ok(()), Failure::DeleteUserFailed), Ok(()));
}

#[test]
fn password_change_target() {
    let caller = Claims { user_id: 9, permission: "guest".to_string() };
    assert_eq!(resolve_user_target("me", &caller), Ok(9));
    assert_eq!(resolve_user_target("12", &caller), Ok(12));
    assert_eq!(resolve_user_target("you", &caller), Err(Failure::BadUserId));
    assert_eq!(resolve_user_target("", &caller), Err(Failure::BadUserId));
    // "me" then passes the check that the caller acts for itself.
    let target = resolve_user_target("me", &caller).unwrap();
    assert_eq!(may_act_for(&caller, target), Ok(()));
    assert_eq!(may_act_for(&caller, resolve_user_target("12", &caller).unwrap()), Err(Failure::Forbidden));
}

#[test]
fn registered_password_logs_in_as_guest() {
    let account = guest_account("reader_1".to_string(), "passw0rdX", Timestamp::from_nanosecond(0).unwrap()).unwrap();
    assert_ne!(account.password, "passw0rdX");
    assert!(account.password.len() > 64);
    let stored = User {
        id: 4,
        username: account.username.clone(),
        password: account.password.clone(),
        permission: account.permission.clone(),
        phone: None,
        email: None,
        register_date: account.register_date,
    };
    let opened = check_login(Ok(Some(stored)), "passw0rdX").unwrap();
    assert_eq!(opened.permission, "guest");
    assert_eq!(opened.username, "reader_1");
}

#[test]
fn taken_name_is_refused() {
    assert_eq!(check_username_free(Ok(1)), Err(Failure::UsernameTaken));
    assert_eq!(check_username_free(Ok(0)), Ok(()));
}
