//! The rows the service stores, as plain values, and the identity of the
//! caller of a request.
use vstd::prelude::*;

use crate::time::Timestamp;

verus! {

/// A database call that failed; what went wrong is the database's business.
#[derive(Clone, Copy, Debug, PartialEq, Eq)]
pub struct DbError;

/// A registered account.
#[derive(Debug, PartialEq, Eq)]
pub struct User {
    pub id: usize,
    pub username: String,
    /// PHC string of the Argon2 hash of the password.
    pub password: String,
    /// `guest` or `manager`.
    pub permission: String,
    pub phone: Option<String>,
    pub email: Option<String>,
    pub register_date: Timestamp,
}

/// A book of the catalogue.
#[derive(Debug, PartialEq, Eq)]
pub struct Book {
    pub id: usize,
    pub title: String,
    pub author: String,
    pub description: Option<String>,
    pub published_date: Option<Timestamp>,
}

/// A loan of a book to a user; it is active until it has a return date.
#[derive(Debug, PartialEq, Eq)]
pub struct Record {
    pub id: usize,
    pub borrow_date: Timestamp,
    pub expire_date: Timestamp,
    pub return_date: Option<Timestamp>,
    pub user_id: usize,
    pub book_id: usize,
}

/// A category that books are filed under.
#[derive(Debug, PartialEq, Eq)]
pub struct Category {
    pub id: usize,
    pub name: String,
}

/// The filing of a book under a category.
#[derive(Clone, Copy, Debug, PartialEq, Eq)]
pub struct BookCategory {
    pub id: usize,
    pub book_id: usize,
    pub category_id: usize,
}

/// Where a renewal request stands.
#[derive(Clone, Copy, Debug, PartialEq, Eq, Structural)]
pub enum RenewStatus {
    Pending,
    Approved,
    Rejected,
}

/// A request to move the due date of a loan.
#[derive(Clone, Copy, Debug, PartialEq, Eq)]
pub struct Renew {
    pub id: usize,
    pub request_date: Timestamp,
    /// The due date asked for.
    pub expired_after: Timestamp,
    pub status: RenewStatus,
    pub record_id: usize,
}

/// A session token handed out at login.
#[derive(Clone, Copy, Debug, PartialEq, Eq)]
pub struct Token {
    pub id: usize,
    /// The token's UUID, as its 128-bit value.
    pub token: u128,
    pub expired_date: Timestamp,
    pub user_id: usize,
}

/// `manager`: the permission of the library's staff.
pub open spec fn manager_permission() -> Seq<char> {
    seq!['m', 'a', 'n', 'a', 'g', 'e', 'r']
}

/// `guest`: the permission of a registered reader.
pub open spec fn guest_permission() -> Seq<char> {
    seq!['g', 'u', 'e', 's', 't']
}

/// The authenticated caller of a request.
#[derive(Debug, PartialEq, Eq)]
pub struct Claims {
    pub user_id: usize,
    pub permission: String,
}

impl Claims {
    /// Whether the caller has the `manager` permission.
    pub fn is_manager(&self) -> (r: bool)
        ensures
            r == (self.permission@ == manager_permission()),
    {
        let manager = String::from_str("manager");
        proof {
            reveal_strlit("manager");
            assert(manager@ =~= manager_permission());
        }
        self.permission == manager
    }
}

/// The name of a renewal status that readers see.
pub open spec fn status_name(status: RenewStatus) -> Seq<char> {
    match status {
        RenewStatus::Pending => "pending"@,
        RenewStatus::Approved => "approved"@,
        RenewStatus::Rejected => "rejected"@,
    }
}

impl RenewStatus {
    /// The name of the status that readers see: `pending`, `approved` or
    /// `rejected`.
    pub fn as_str(&self) -> (r: &'static str)
        ensures
            r@ == status_name(*self),
    {
        match self {
            RenewStatus::Pending => "pending",
            RenewStatus::Approved => "approved",
            RenewStatus::Rejected => "rejected",
        }
    }
}

} // verus!
