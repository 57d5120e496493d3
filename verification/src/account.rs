//! Accounts: registration, passwords, the first staff account, and how
//! accounts are listed and searched.
use vstd::prelude::*;

use crate::credential::{argon2_verifies, hash_password, phc_parses, random_alphanumeric};
use crate::lending::{active_count, is_active};
use crate::model::{guest_permission, manager_permission, DbError, Record, User};
use crate::reply::Failure;
use crate::step::indices_where;
use crate::text::{contains_text, is_ascii_digit, is_ascii_letter, lowercase, lowercase_of, matches_keyword, valid_password, valid_username, validate_password, validate_username};
use crate::time::Timestamp;

verus! {

/// Checks the name and password of a registration against the rules.
pub fn check_registration(username: &str, password: &str) -> (r: Result<(), Failure>)
    ensures
        r == if !valid_username(username@) {
            Err(Failure::BadUsername)
        } else if !valid_password(password@) {
            Err(Failure::BadPassword)
        } else {
            Ok::<(), Failure>(())
        },
{
    if !validate_username(username) {
        return Err(Failure::BadUsername);
    }
    check_new_password(password)
}

/// Checks a new password against the password rule.
pub fn check_new_password(password: &str) -> (r: Result<(), Failure>)
    ensures
        r == if valid_password(password@) {
            Ok::<(), Failure>(())
        } else {
            Err(Failure::BadPassword)
        },
{
    if validate_password(password) {
        Ok(())
    } else {
        Err(Failure::BadPassword)
    }
}

/// The verdict on a new account name, from counting the accounts that have
/// it: the name is free when the count finds none.
pub open spec fn username_verdict(count: Result<u64, DbError>) -> Result<(), Failure> {
    match count {
        Err(_) => Err(Failure::Internal),
        Ok(n) => if n > 0 {
            Err(Failure::UsernameTaken)
        } else {
            Ok(())
        },
    }
}

/// A name is free when counting the accounts that have it finds none.
pub fn check_username_free(count: Result<u64, DbError>) -> (r: Result<(), Failure>)
    ensures
        r == username_verdict(count),
{
    match count {
        Err(_) => Err(Failure::Internal),
        Ok(n) => if n > 0 {
            Err(Failure::UsernameTaken)
        } else {
            Ok(())
        },
    }
}

/// The hash to store for a password; hashing that fails is the server's
/// fault, and it does not fail on a password of at most a quarter of
/// `0xFFFFFFFF` characters.
pub fn password_hash(password: &str) -> (r: Result<String, Failure>)
    ensures
        r matches Err(f) ==> f == Failure::Internal,
        password@.len() * 4 <= 0xFFFF_FFFF ==> r is Ok,
        r matches Ok(h) ==> phc_parses(h@) && argon2_verifies(password@, h@) && h@.len() > 64,
{
    match hash_password(password) {
        Some(h) => Ok(h),
        None => Err(Failure::Internal),
    }
}

/// An account to be stored, with no phone, e-mail or session yet.
#[derive(Debug, PartialEq, Eq)]
pub struct NewUser {
    pub username: String,
    pub password: String,
    pub permission: String,
    pub register_date: Timestamp,
}

/// `account` is what registering `username` with `password` at `now`
/// creates: a `guest` of that name whose stored hash verifies the password;
/// for a password that meets the password rule, the stored text is not the
/// password itself.
pub open spec fn registered_guest(username: Seq<char>, password: Seq<char>, now: Timestamp, account: NewUser) -> bool {
    &&& account.username@ == username
    &&& account.permission@ == guest_permission()
    &&& account.register_date == now
    &&& phc_parses(account.password@)
    &&& argon2_verifies(password, account.password@)
    &&& valid_password(password) ==> account.password@ != password
}

/// The row that storing `account` under id `id` gives: no phone or e-mail.
pub open spec fn stored_user(account: NewUser, id: usize) -> User {
    User {
        id,
        username: account.username,
        password: account.password,
        permission: account.permission,
        phone: None,
        email: None,
        register_date: account.register_date,
    }
}

/// The account that registering `username` with `password` at `now` creates.
pub fn guest_account(username: String, password: &str, now: Timestamp) -> (r: Result<NewUser, Failure>)
    ensures
        r matches Err(f) ==> f == Failure::Internal,
        password@.len() * 4 <= 0xFFFF_FFFF ==> r is Ok,
        r matches Ok(u) ==> u.username == username && registered_guest(username@, password@, now, u),
{
    let hashed = match password_hash(password) {
        Ok(h) => h,
        Err(f) => return Err(f),
    };
    let permission = String::from_str("guest");
    proof {
        reveal_strlit("guest");
        assert(permission@ =~= guest_permission());
    }
    Ok(NewUser { username, password: hashed, permission, register_date: now })
}

/// Length of the password generated for the first staff account.
pub const ADMIN_PASSWORD_LEN: usize = 12;

/// Whether the first staff account is to be created: only where counting
/// the accounts succeeds and finds none.
pub fn needs_admin(count: Result<u64, DbError>) -> (r: bool)
    ensures
        r == (count == Ok::<u64, DbError>(0)),
{
    match count {
        Ok(n) => n == 0,
        Err(_) => false,
    }
}

/// The first staff account and its generated password.
#[derive(Debug, PartialEq, Eq)]
pub struct InitialAdmin {
    pub account: NewUser,
    pub password: String,
}

/// The first staff account: `admin`, a `manager`, with a random password of
/// twelve ASCII letters and digits that its stored hash verifies.
pub fn admin_account(now: Timestamp) -> (r: Result<InitialAdmin, Failure>)
    ensures
        r matches Err(f) ==> f == Failure::Internal,
        r matches Ok(a) ==> a.account.username@ == seq!['a', 'd', 'm', 'i', 'n']
            && a.account.permission@ == manager_permission() && a.account.register_date == now
            && a.password@.len() == ADMIN_PASSWORD_LEN && (forall|i: int|
            0 <= i < a.password@.len() ==> is_ascii_letter(#[trigger] a.password@[i])
                || is_ascii_digit(a.password@[i])) && phc_parses(a.account.password@)
            && argon2_verifies(a.password@, a.account.password@) && a.account.password@
            != a.password@,
        r is Ok,
{
    let password = random_alphanumeric(ADMIN_PASSWORD_LEN);
    let hashed = match password_hash(password.as_str()) {
        Ok(h) => h,
        Err(f) => return Err(f),
    };
    let username = String::from_str("admin");
    let permission = String::from_str("manager");
    proof {
        reveal_strlit("admin");
        reveal_strlit("manager");
        assert(username@ =~= seq!['a', 'd', 'm', 'i', 'n']);
        assert(permission@ =~= manager_permission());
    }
    Ok(
        InitialAdmin {
            account: NewUser { username, password: hashed, permission, register_date: now },
            password,
        },
    )
}

/// How many of `loans` are active.
pub fn count_active(loans: &Vec<Record>) -> (r: usize)
    ensures
        r == active_count(loans@),
{
    let mut n: usize = 0;
    let mut i: usize = 0;
    while i < loans.len()
        invariant
            i <= loans.len(),
            n == active_count(loans@.take(i as int)),
            n <= i,
        decreases loans.len() - i,
    {
        assert(loans@.take(i + 1).drop_last() =~= loans@.take(i as int));
        if loans[i].return_date.is_none() {
            n = n + 1;
        }
        i = i + 1;
    }
    assert(loans@.take(loans.len() as int) =~= loans@);
    n
}

/// How many books a user has out, from the lookup of the user's loans; a
/// failed lookup counts none.
pub fn borrowed_count(loans: &Result<Vec<Record>, DbError>) -> (r: usize)
    ensures
        r == match loans {
            Ok(v) => active_count(v@),
            Err(_) => 0,
        },
{
    match loans {
        Ok(v) => count_active(v),
        Err(_) => 0,
    }
}

/// An account as listed.
#[derive(Debug, PartialEq, Eq)]
pub struct UserInfo {
    pub id: usize,
    pub username: String,
    pub phone: Option<String>,
    pub email: Option<String>,
    pub borrowed_books: usize,
}

/// Lists an account, with the number of books it has out.
pub fn user_info(user: User, borrowed_books: usize) -> (r: UserInfo)
    ensures
        r == (UserInfo {
            id: user.id,
            username: user.username,
            phone: user.phone,
            email: user.email,
            borrowed_books,
        }),
{
    UserInfo { id: user.id, username: user.username, phone: user.phone, email: user.email, borrowed_books }
}

/// The indices of the accounts that a search for `keyword` lists, in order.
pub open spec fn users_matching(users: Seq<User>, keyword: Seq<char>) -> Seq<usize> {
    indices_where(users.len() as int, |i: int| matches_keyword(lowercase_of(keyword), users[i].username@))
}

/// The indices of the accounts whose name holds `keyword`, both read in
/// lower case, in order.
pub fn select_users(users: &Vec<User>, keyword: &str) -> (r: Vec<usize>)
    ensures
        r@ == indices_where(
            users.len() as int,
            |i: int| matches_keyword(lowercase_of(keyword@), users@[i].username@),
        ),
        r@ == users_matching(users@, keyword@),
{
    let key = lowercase(keyword);
    let ghost keep = |i: int| matches_keyword(lowercase_of(keyword@), users@[i].username@);
    let mut r: Vec<usize> = Vec::new();
    let mut i: usize = 0;
    while i < users.len()
        invariant
            i <= users.len(),
            key@ == lowercase_of(keyword@),
            keep == (|i: int| matches_keyword(lowercase_of(keyword@), users@[i].username@)),
            r@ == indices_where(i as int, keep),
        decreases users.len() - i,
    {
        let name = lowercase(users[i].username.as_str());
        if contains_text(name.as_str(), key.as_str()) {
            r.push(i);
        }
        i = i + 1;
    }
    r
}

} // verus!
