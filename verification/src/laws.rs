//! What holds across the service's decisions: sessions, passwords, loans and
//! renewals.
use vstd::prelude::*;

use crate::account::{registered_guest, stored_user, username_verdict, users_matching, NewUser};
use crate::catalog::{selected_books, SearchMode};
use crate::credential::{argon2_verifies, phc_parses, uuid_parse};
use crate::lending::{active_count, borrow_plan, overdue_listed, renewals_shown, has_active, is_active, is_first_active, is_overdue, renewal_decision, renewal_plan, return_plan, stored_loan, NewRecord, NewRenew};
use crate::model::{guest_permission, Book, Claims, DbError, Record, Renew, RenewStatus, Token, User};
use crate::reply::{Failure, Success};
use crate::session::{header_token, TokenCheck, login_verdict, password_verdict, token_check, RENEW_BELOW_HOURS, SESSION_HOURS};
use crate::step::lemma_indices_where;
use crate::text::{bearer_scheme, is_infix, lowercase_of, valid_password, valid_username};
use crate::time::{lemma_stamp_view, lemma_view_bounds, stamp, Timestamp, HOUR_NANOS, MAX_NANOS};

verus! {

// ---------------------------------------------------------------------------
// Counting active loans
// ---------------------------------------------------------------------------

/// Adding a loan adds one active loan if it is active.
pub proof fn lemma_active_count_push(loans: Seq<Record>, loan: Record)
    ensures
        active_count(loans.push(loan)) == active_count(loans) + if is_active(loan) {
            1nat
        } else {
            0nat
        },
{
    assert(loans.push(loan).drop_last() =~= loans);
}

/// A list with an active loan counts at least one.
pub proof fn lemma_has_active_counts(loans: Seq<Record>)
    ensures
        has_active(loans) <==> active_count(loans) >= 1,
    decreases loans.len(),
{
    if loans.len() > 0 {
        let rest = loans.drop_last();
        lemma_has_active_counts(rest);
        if has_active(rest) {
            let i = choose|i: int| 0 <= i < rest.len() && is_active(#[trigger] rest[i]);
            assert(is_active(loans[i]));
        }
        if has_active(loans) && !is_active(loans.last()) {
            let i = choose|i: int| 0 <= i < loans.len() && is_active(#[trigger] loans[i]);
            assert(i < loans.len() - 1);
            assert(is_active(rest[i]));
        }
        if is_active(loans.last()) {
            assert(is_active(loans[loans.len() - 1]));
        }
    }
}

/// A list with an active loan has a first one.
pub proof fn lemma_first_active_exists(loans: Seq<Record>)
    requires
        has_active(loans),
    ensures
        exists|i: int| is_first_active(loans, i),
    decreases loans.len(),
{
    let rest = loans.drop_last();
    if has_active(rest) {
        lemma_first_active_exists(rest);
        let i = choose|i: int| is_first_active(rest, i);
        assert forall|j: int| 0 <= j < i implies !is_active(#[trigger] loans[j]) by {
            assert(loans[j] == rest[j]);
        }
        assert(loans[i] == rest[i]);
        assert(is_first_active(loans, i));
    } else {
        let n = loans.len() - 1;
        let i = choose|i: int| 0 <= i < loans.len() && is_active(#[trigger] loans[i]);
        if i < n {
            assert(is_active(rest[i]));
        }
        assert forall|j: int| 0 <= j < n implies !is_active(#[trigger] loans[j]) by {
            if is_active(loans[j]) {
                assert(is_active(rest[j]));
            }
        }
        assert(is_first_active(loans, n));
    }
}

/// Two different active loans count at least two.
pub proof fn lemma_two_active_count(loans: Seq<Record>, i: int, j: int)
    requires
        0 <= i < loans.len(),
        0 <= j < loans.len(),
        i != j,
        is_active(loans[i]),
        is_active(loans[j]),
    ensures
        active_count(loans) >= 2,
    decreases loans.len(),
{
    let rest = loans.drop_last();
    let n = loans.len() - 1;
    if i < n && j < n {
        lemma_two_active_count(rest, i, j);
    } else {
        let k = if i == n { j } else { i };
        assert(is_active(rest[k]));
        lemma_has_active_counts(rest);
    }
}

// ---------------------------------------------------------------------------
// Sessions
// ---------------------------------------------------------------------------

/// A session handed out at login serves its holder: the token text that the
/// login answers, sent back as `Bearer <token>`, names the session, and the
/// session is accepted, for its owner, at every moment up to its end, which
/// is twelve hours after the login; after that it is refused as expired.
pub proof fn law_login_token_authenticates(
    header: &str,
    access_token: Seq<char>,
    token: Token,
    issued: Timestamp,
    at: Timestamp,
)
    requires
        uuid_parse(access_token) == Some(token.token),
        header@ == bearer_scheme() + access_token,
        token.expired_date@ == issued@ + SESSION_HOURS * HOUR_NANOS,
        issued@ <= at@,
    ensures
        header_token(Some(header)) == Ok::<u128, Failure>(token.token),
        at@ <= token.expired_date@ ==> (token_check(Ok(Some(token)), at) matches Ok(c)
            && c.user_id == token.user_id),
        at@ > token.expired_date@ ==> token_check(Ok(Some(token)), at) == Err::<
            crate::session::TokenCheck,
            Failure,
        >(Failure::TokenExpired),
{
    assert(header@.subrange(0, 7) =~= bearer_scheme());
    assert(header@.subrange(7, header@.len() as int) =~= access_token);
}

/// Renewing a session never shortens it: the renewed session ends twelve
/// hours after the moment of use, later than it would have; and a session
/// just renewed is not renewed again within the next eleven hours.
pub proof fn law_session_renewal_extends(token: Token, now: Timestamp, later: Timestamp)
    requires
        now@ + SESSION_HOURS * HOUR_NANOS <= MAX_NANOS,
        now@ <= later@ <= now@ + (SESSION_HOURS - RENEW_BELOW_HOURS) * HOUR_NANOS,
    ensures
        token_check(Ok(Some(token)), now) matches Ok(c) ==> (c.renewed_until matches Some(end)
            ==> end@ == now@ + SESSION_HOURS * HOUR_NANOS && token.expired_date@ < end@ && (
        token_check(Ok(Some(Token { expired_date: end, ..token })), later) matches Ok(c2)
            && c2.renewed_until is None)),
{
    lemma_view_bounds(now);
    lemma_stamp_view(now@ + SESSION_HOURS * HOUR_NANOS);
}

// ---------------------------------------------------------------------------
// Passwords
// ---------------------------------------------------------------------------

/// A password whose hash was stored (at registration, at a password change,
/// for the first staff account) opens the account at login.
pub proof fn law_stored_password_logs_in(user: User, password: Seq<char>)
    requires
        phc_parses(user.password@),
        argon2_verifies(password, user.password@),
    ensures
        password_verdict(password, user.password@) == Ok::<(), Failure>(()),
        login_verdict(Ok(Some(user)), password) == Ok::<User, Failure>(user),
{
}

/// A login names no account that the lookup did not find, and opens none
/// without a matching password.
pub proof fn law_login_needs_matching_password(found: Result<Option<User>, DbError>, password: Seq<char>)
    ensures
        login_verdict(found, password) matches Ok(u) ==> found == Ok::<Option<User>, DbError>(
            Some(u),
        ) && phc_parses(u.password@) && argon2_verifies(password, u.password@),
{
}

/// A registered account opens with its password: once the account that a
/// registration creates is stored, logging in with the same password opens
/// it as a `guest`, and for a password that meets the password rule the
/// stored text is not the password.
pub proof fn law_registered_password_logs_in(
    username: Seq<char>,
    password: Seq<char>,
    now: Timestamp,
    account: NewUser,
    id: usize,
)
    requires
        registered_guest(username, password, now, account),
    ensures
        login_verdict(Ok(Some(stored_user(account, id))), password) == Ok::<User, Failure>(
            stored_user(account, id),
        ),
        stored_user(account, id).username@ == username,
        stored_user(account, id).permission@ == guest_permission(),
        valid_password(password) ==> stored_user(account, id).password@ != password,
{
}

// ---------------------------------------------------------------------------
// Account names
// ---------------------------------------------------------------------------

/// No two of `names` are the same.
pub open spec fn names_distinct(names: Seq<Seq<char>>) -> bool {
    forall|i: int, j: int| 0 <= i < j < names.len() ==> names[i] != names[j]
}

/// How many of `names` are `name`.
pub open spec fn name_count(names: Seq<Seq<char>>, name: Seq<char>) -> nat
    decreases names.len(),
{
    if names.len() == 0 {
        0
    } else {
        name_count(names.drop_last(), name) + if names.last() == name {
            1nat
        } else {
            0nat
        }
    }
}

/// A name counted none times is none of the names.
pub proof fn lemma_uncounted_name_absent(names: Seq<Seq<char>>, name: Seq<char>)
    requires
        name_count(names, name) == 0,
    ensures
        forall|i: int| 0 <= i < names.len() ==> names[i] != name,
    decreases names.len(),
{
    if names.len() > 0 {
        lemma_uncounted_name_absent(names.drop_last(), name);
        assert forall|i: int| 0 <= i < names.len() implies names[i] != name by {
            if i < names.len() - 1 {
                assert(names[i] == names.drop_last()[i]);
            }
        }
    }
}

/// Account names stay distinct: where the stored names are distinct and the
/// count of accounts with the new name is what the database holds, a
/// registration that the name check lets through keeps them distinct, and a
/// name already taken is refused as such.
pub proof fn law_registration_keeps_names_distinct(names: Seq<Seq<char>>, name: Seq<char>, count: u64)
    requires
        names_distinct(names),
        count == name_count(names, name),
    ensures
        username_verdict(Ok(count)) is Ok ==> names_distinct(names.push(name)),
        name_count(names, name) > 0 ==> username_verdict(Ok(count)) == Err::<(), Failure>(
            Failure::UsernameTaken,
        ),
{
    if count == 0 {
        lemma_uncounted_name_absent(names, name);
        let after = names.push(name);
        assert forall|i: int, j: int| 0 <= i < j < after.len() implies after[i] != after[j] by {
            if j == names.len() {
                assert(after[i] == names[i]);
            } else {
                assert(after[i] == names[i] && after[j] == names[j]);
            }
        }
    }
}

// ---------------------------------------------------------------------------
// Loans
// ---------------------------------------------------------------------------

/// A book is lent to one reader at a time: once a loan is stored, the book
/// has exactly one active loan, and lending it again is refused until it is
/// returned.
pub proof fn law_lent_book_is_out(
    loans: Vec<Record>,
    after: Vec<Record>,
    user_id: usize,
    book_id: usize,
    now: Timestamp,
    due: Timestamp,
    loan: NewRecord,
    id: usize,
    next_user: usize,
    next_now: Timestamp,
    next_due: Timestamp,
)
    requires
        borrow_plan(Ok(loans), user_id, book_id, now, due) == Ok::<NewRecord, Failure>(loan),
        after@ == loans@.push(stored_loan(loan, id)),
    ensures
        loan.user_id == user_id && loan.book_id == book_id && loan.borrow_date == now
            && loan.expire_date == due,
        active_count(after@) == 1,
        borrow_plan(Ok(after), next_user, book_id, next_now, next_due) == Err::<NewRecord, Failure>(
            Failure::AlreadyBorrowed,
        ),
{
    lemma_has_active_counts(loans@);
    lemma_active_count_push(loans@, stored_loan(loan, id));
    assert(is_active(after@[after@.len() - 1]));
}

/// Lending keeps each book to at most one active loan.
pub proof fn law_lending_keeps_one_active_loan(
    loans: Vec<Record>,
    after: Vec<Record>,
    user_id: usize,
    book_id: usize,
    now: Timestamp,
    due: Timestamp,
    loan: NewRecord,
    id: usize,
)
    requires
        active_count(loans@) <= 1,
        borrow_plan(Ok(loans), user_id, book_id, now, due) == Ok::<NewRecord, Failure>(loan),
        after@ == loans@.push(stored_loan(loan, id)),
    ensures
        active_count(after@) <= 1,
{
    lemma_has_active_counts(loans@);
    lemma_active_count_push(loans@, stored_loan(loan, id));
}

/// A return ends an active loan of the user's: the first one.
pub proof fn law_return_ends_active_loan(loans: Vec<Record>, loan_id: usize)
    requires
        return_plan(Ok(loans)) == Ok::<usize, Failure>(loan_id),
    ensures
        exists|i: int| is_first_active(loans@, i) && #[trigger] loans@[i].id == loan_id,
{
    lemma_first_active_exists(loans@);
    let i = choose|i: int| is_first_active(loans@, i);
    assert(loans@[i].id == loan_id);
}

/// A returned book can be lent again: where a book's only active loan is
/// marked returned, the book has no active loan, and a new loan of it is
/// planned.
pub proof fn law_returned_book_can_be_lent(
    loans: Vec<Record>,
    after: Vec<Record>,
    i: int,
    returned_at: Timestamp,
    user_id: usize,
    book_id: usize,
    now: Timestamp,
    due: Timestamp,
)
    requires
        active_count(loans@) <= 1,
        0 <= i < loans@.len(),
        is_active(loans@[i]),
        after@ == loans@.update(i, Record { return_date: Some(returned_at), ..loans@[i] }),
    ensures
        !has_active(after@),
        borrow_plan(Ok(after), user_id, book_id, now, due) == Ok::<NewRecord, Failure>(
            NewRecord { user_id, book_id, borrow_date: now, expire_date: due },
        ),
{
    if has_active(after@) {
        let j = choose|j: int| 0 <= j < after@.len() && is_active(#[trigger] after@[j]);
        assert(j != i);
        assert(is_active(loans@[j]));
        lemma_two_active_count(loans@, i, j);
    }
}

/// A loan can be undone and the book lent again. Lend the book, storing the
/// new loan as the last of its loans; then the lookup that a return by the
/// borrower reads (the book's loans of that user, each one of the book's
/// loans, the new one among them) leads the return to end exactly the new
/// loan; once that loan is marked returned the book has no active loan, and
/// lending it again, to anyone, is planned.
pub proof fn law_borrow_return_borrow(
    loans: Vec<Record>,
    after: Vec<Record>,
    user_loans: Vec<Record>,
    returned: Vec<Record>,
    user_id: usize,
    book_id: usize,
    now: Timestamp,
    due: Timestamp,
    loan: NewRecord,
    id: usize,
    returned_at: Timestamp,
    next_user: usize,
    next_now: Timestamp,
    next_due: Timestamp,
)
    requires
        borrow_plan(Ok(loans), user_id, book_id, now, due) == Ok::<NewRecord, Failure>(loan),
        after@ == loans@.push(stored_loan(loan, id)),
        forall|k: int| 0 <= k < user_loans@.len() ==> after@.contains(#[trigger] user_loans@[k]),
        user_loans@.contains(stored_loan(loan, id)),
        returned@ == after@.update(
            loans@.len() as int,
            Record { return_date: Some(returned_at), ..stored_loan(loan, id) },
        ),
    ensures
        return_plan(Ok(user_loans)) == Ok::<usize, Failure>(id),
        !has_active(returned@),
        borrow_plan(Ok(returned), next_user, book_id, next_now, next_due) == Ok::<NewRecord, Failure>(
            NewRecord { user_id: next_user, book_id, borrow_date: next_now, expire_date: next_due },
        ),
{
    let new_loan = stored_loan(loan, id);
    let n = loans@.len() as int;
    // Before the loan, none of the book's loans was active.
    assert(!has_active(loans@));
    assert forall|j: int| 0 <= j < n implies !is_active(#[trigger] loans@[j]) by {
        if is_active(loans@[j]) {
            assert(has_active(loans@));
        }
    }
    // So the only active loan of the book is the new one.
    assert forall|j: int| 0 <= j < after@.len() && is_active(#[trigger] after@[j]) implies after@[j]
        == new_loan by {
        if j < n {
            assert(after@[j] == loans@[j]);
        }
    }
    // The user's lookup holds the new loan, and each of its active loans is it.
    let k0 = choose|k: int| 0 <= k < user_loans@.len() && user_loans@[k] == new_loan;
    assert(is_active(user_loans@[k0]));
    assert(has_active(user_loans@));
    assert forall|k: int| 0 <= k < user_loans@.len() && is_active(#[trigger] user_loans@[k]) implies
        user_loans@[k] == new_loan by {
        assert(after@.contains(user_loans@[k]));
        let j = choose|j: int| 0 <= j < after@.len() && after@[j] == user_loans@[k];
        assert(is_active(after@[j]));
    }
    let i = choose|i: int| is_first_active(user_loans@, i);
    lemma_first_active_exists(user_loans@);
    assert(is_first_active(user_loans@, i));
    assert(user_loans@[i] == new_loan);
    // After the return nothing of the book is active.
    if has_active(returned@) {
        let j = choose|j: int| 0 <= j < returned@.len() && is_active(#[trigger] returned@[j]);
        if j < n {
            assert(returned@[j] == loans@[j]);
        }
    }
}

/// Only the borrower asks to renew a loan, and only while it is active; the
/// request is stored pending, for that loan.
pub proof fn law_renewal_only_for_own_active_loan(claims: Claims, loan: Record, now: Timestamp, wanted: Timestamp)
    ensures
        renewal_plan(claims, loan, now, wanted) matches Ok(req) ==> loan.user_id == claims.user_id
            && is_active(loan) && req.status == RenewStatus::Pending && req.record_id == loan.id
            && req.expired_after == wanted,
{
}

/// A renewal request is decided once: after its status is stored, deciding
/// it again is refused.
pub proof fn law_renewal_decided_once(renewal: Renew, approved: bool, again: bool)
    ensures
        renewal_decision(renewal, approved) matches Ok(d) ==> renewal_decision(
            Renew { status: d.status, ..renewal },
            again,
        ) == Err::<crate::lending::RenewalDecision, Failure>(Failure::RenewalHandled),
{
}

/// Approving a renewal moves the loan's due date to the date asked for;
/// rejecting it leaves the loan alone.
pub proof fn law_approval_moves_due_date(renewal: Renew)
    requires
        renewal.status == RenewStatus::Pending,
    ensures
        renewal_decision(renewal, true) matches Ok(d) && d.status == RenewStatus::Approved
            && d.extend_to == Some(renewal.expired_after) && d.reply == Success::RenewalApproved,
        renewal_decision(renewal, false) matches Ok(d) && d.status == RenewStatus::Rejected
            && d.extend_to is None && d.reply == Success::RenewalRejected,
{
}

/// A returned loan is never listed as overdue.
pub proof fn law_returned_loans_are_not_overdue(loan: Record, now: Timestamp, since: Option<Timestamp>)
    requires
        loan.return_date is Some,
    ensures
        !is_overdue(loan, now, since),
{
}

// ---------------------------------------------------------------------------
// What each decision is for, stated on its own terms
// ---------------------------------------------------------------------------

/// A book is lent exactly when none of its loans is still open: with every
/// loan returned (or no loan at all) the loan is planned for the reader, the
/// dates asked for; with some loan not returned it is refused as lent.
pub proof fn law_lending_follows_open_loans(
    loans: Vec<Record>,
    user_id: usize,
    book_id: usize,
    now: Timestamp,
    due: Timestamp,
)
    ensures
        (forall|i: int| 0 <= i < loans@.len() ==> (#[trigger] loans@[i]).return_date is Some)
            ==> borrow_plan(Ok(loans), user_id, book_id, now, due) == Ok::<NewRecord, Failure>(
            NewRecord { user_id, book_id, borrow_date: now, expire_date: due },
        ),
        (exists|i: int| 0 <= i < loans@.len() && (#[trigger] loans@[i]).return_date is None)
            ==> borrow_plan(Ok(loans), user_id, book_id, now, due) == Err::<NewRecord, Failure>(
            Failure::AlreadyBorrowed,
        ),
        borrow_plan(Err(DbError), user_id, book_id, now, due) == Err::<NewRecord, Failure>(
            Failure::Internal,
        ),
{
    if exists|i: int| 0 <= i < loans@.len() && (#[trigger] loans@[i]).return_date is None {
        let i = choose|i: int| 0 <= i < loans@.len() && (#[trigger] loans@[i]).return_date is None;
        assert(is_active(loans@[i]));
    }
}

/// The borrower may always ask to renew an open loan, whatever its due date:
/// the request is stored pending, for that loan and the date asked for.
/// Another reader's loan, and a returned one, are refused.
pub proof fn law_borrower_may_renew(claims: Claims, loan: Record, now: Timestamp, wanted: Timestamp)
    ensures
        loan.user_id == claims.user_id && loan.return_date is None ==> renewal_plan(
            claims,
            loan,
            now,
            wanted,
        ) == Ok::<NewRenew, Failure>(
            NewRenew {
                request_date: now,
                expired_after: wanted,
                status: RenewStatus::Pending,
                record_id: loan.id,
            },
        ),
        loan.user_id != claims.user_id ==> renewal_plan(claims, loan, now, wanted) == Err::<
            NewRenew,
            Failure,
        >(Failure::NotOwnRecord),
        loan.user_id == claims.user_id && loan.return_date is Some ==> renewal_plan(
            claims,
            loan,
            now,
            wanted,
        ) == Err::<NewRenew, Failure>(Failure::AlreadyReturned),
{
}

/// The renewal listing: the staff see exactly the pending requests; a reader
/// sees exactly the requests whose loan was found and is theirs.
pub proof fn law_renewal_listing(
    user_id: usize,
    renewals: Seq<Renew>,
    owners: Seq<Result<Option<Record>, DbError>>,
    i: int,
)
    requires
        renewals.len() <= usize::MAX,
        0 <= i < renewals.len(),
    ensures
        renewals_shown(true, user_id, renewals, owners).contains(i as usize) <==> renewals[i].status
            == RenewStatus::Pending,
        owners.len() == renewals.len() ==> (renewals_shown(false, user_id, renewals, owners).contains(
            i as usize,
        ) <==> (owners[i] matches Ok(Some(loan)) && loan.user_id == user_id)),
{
    lemma_indices_where(
        renewals.len() as int,
        |j: int| crate::lending::shows_renewal(true, user_id, renewals, owners, j),
    );
    lemma_indices_where(
        renewals.len() as int,
        |j: int| crate::lending::shows_renewal(false, user_id, renewals, owners, j),
    );
}

/// A search selects a book exactly when its keyword (already in lower case)
/// occurs in the lower-cased title, or author; for a category search, in the
/// lower-cased name of any one of the book's categories, where these could be
/// read; a search with no keyword selects every book.
pub proof fn law_search_selection(
    books: Seq<Book>,
    mode: SearchMode,
    names: Seq<Option<Vec<String>>>,
    i: int,
)
    requires
        books.len() <= usize::MAX,
        0 <= i < books.len(),
    ensures
        mode matches SearchMode::Title(k) ==> (selected_books(books, mode, names).contains(i as usize)
            <==> is_infix(k@, lowercase_of(books[i].title@))),
        mode matches SearchMode::Author(k) ==> (selected_books(books, mode, names).contains(i as usize)
            <==> is_infix(k@, lowercase_of(books[i].author@))),
        mode matches SearchMode::Category(k) ==> (selected_books(books, mode, names).contains(
            i as usize,
        ) <==> (names[i] matches Some(ns) && exists|j: int|
            0 <= j < ns@.len() && is_infix(k@, lowercase_of((#[trigger] ns@[j])@)))),
        mode == SearchMode::All ==> selected_books(books, mode, names).contains(i as usize),
{
    lemma_indices_where(
        books.len() as int,
        |j: int| crate::catalog::book_matches(mode, books[j], names[j]),
    );
}

/// An account search lists exactly the accounts whose lower-cased name holds
/// the lower-cased keyword.
pub proof fn law_account_search(users: Seq<User>, keyword: Seq<char>, i: int)
    requires
        users.len() <= usize::MAX,
        0 <= i < users.len(),
    ensures
        users_matching(users, keyword).contains(i as usize) <==> is_infix(
            lowercase_of(keyword),
            lowercase_of(users[i].username@),
        ),
{
    lemma_indices_where(
        users.len() as int,
        |j: int| crate::text::matches_keyword(lowercase_of(keyword), users[j].username@),
    );
}

/// The overdue listing shows exactly the loans not returned that fell due
/// before now, and, where a date is given, after that date.
pub proof fn law_overdue_listing(loans: Seq<Record>, now: Timestamp, since: Option<Timestamp>, i: int)
    requires
        loans.len() <= usize::MAX,
        0 <= i < loans.len(),
    ensures
        overdue_listed(loans, now, since).contains(i as usize) <==> (loans[i].return_date is None
            && loans[i].expire_date@ < now@ && (since matches Some(s) ==> s@ < loans[i].expire_date@)),
{
    lemma_indices_where(loans.len() as int, |j: int| is_overdue(loans[j], now, since));
}

/// The account-name rule: 3 to 32 characters, each an ASCII letter of either
/// case, an ASCII digit or `_`.
pub proof fn law_account_name_rule(name: Seq<char>)
    ensures
        valid_username(name) <==> (3 <= name.len() <= 32 && forall|i: int|
            0 <= i < name.len() ==> (('a' <= #[trigger] name[i] && name[i] <= 'z') || ('A' <= name[i]
                && name[i] <= 'Z') || ('0' <= name[i] && name[i] <= '9') || name[i] == '_')),
{
}

/// The password rule: 8 to 64 characters, with at least one ASCII letter of
/// either case and at least one ASCII digit.
pub proof fn law_password_rule(password: Seq<char>)
    ensures
        valid_password(password) <==> (8 <= password.len() <= 64 && (exists|i: int|
            0 <= i < password.len() && (('a' <= #[trigger] password[i] && password[i] <= 'z') || (
            'A' <= password[i] && password[i] <= 'Z'))) && (exists|i: int|
            0 <= i < password.len() && '0' <= #[trigger] password[i] && password[i] <= '9')),
{
}

/// A session is judged by how long it has left: an unknown one is refused;
/// one whose end has passed is expired; one with less than an hour left is
/// accepted and renewed to end twelve hours from now; any other is accepted
/// as it is. The account is the session's.
pub proof fn law_session_verdict(found: Result<Option<Token>, DbError>, now: Timestamp)
    ensures
        found matches Ok(Some(t)) ==> (t.expired_date@ < now@ ==> token_check(found, now) == Err::<
            TokenCheck,
            Failure,
        >(Failure::TokenExpired)),
        found matches Ok(Some(t)) ==> (now@ <= t.expired_date@ < now@ + HOUR_NANOS ==> token_check(
            found,
            now,
        ) == Ok::<TokenCheck, Failure>(
            TokenCheck { user_id: t.user_id, renewed_until: Some(stamp(now@ + 12 * HOUR_NANOS)) },
        )),
        found matches Ok(Some(t)) ==> (now@ + HOUR_NANOS <= t.expired_date@ ==> token_check(found, now)
            == Ok::<TokenCheck, Failure>(TokenCheck { user_id: t.user_id, renewed_until: None })),
        !(found matches Ok(Some(_))) ==> token_check(found, now) == Err::<TokenCheck, Failure>(
            Failure::InvalidToken,
        ),
{
}

/// A return is planned exactly when one of the user's loans of the book is
/// open, and it ends an open one; with none open it is refused.
pub proof fn law_return_needs_open_loan(loans: Vec<Record>)
    ensures
        (exists|i: int| 0 <= i < loans@.len() && (#[trigger] loans@[i]).return_date is None)
            ==> (return_plan(Ok(loans)) matches Ok(id) && exists|i: int|
            0 <= i < loans@.len() && (#[trigger] loans@[i]).return_date is None && loans@[i].id == id
                && forall|j: int| 0 <= j < i ==> (#[trigger] loans@[j]).return_date is Some),
        (forall|i: int| 0 <= i < loans@.len() ==> (#[trigger] loans@[i]).return_date is Some)
            ==> return_plan(Ok(loans)) == Err::<usize, Failure>(Failure::NoActiveLoan),
{
    if exists|i: int| 0 <= i < loans@.len() && (#[trigger] loans@[i]).return_date is None {
        let i = choose|i: int| 0 <= i < loans@.len() && (#[trigger] loans@[i]).return_date is None;
        assert(is_active(loans@[i]));
        lemma_first_active_exists(loans@);
        let k = choose|k: int| is_first_active(loans@, k);
        assert(loans@[k].return_date is None);
        assert forall|j: int| 0 <= j < k implies (#[trigger] loans@[j]).return_date is Some by {
            assert(!is_active(loans@[j]));
        }
    }
}

/// A request that was already decided is not decided again, whichever way
/// the staff answer.
pub proof fn law_decided_request_stays(renewal: Renew, approved: bool)
    ensures
        renewal.status != RenewStatus::Pending ==> renewal_decision(renewal, approved) == Err::<
            crate::lending::RenewalDecision,
            Failure,
        >(Failure::RenewalHandled),
{
}

/// A lookup answers its row; a failed lookup is refused with the error asked
/// for on failure, an empty one with the error asked for on absence.
pub proof fn law_lookup_outcomes<T>(row: T, on_error: Failure, on_missing: Failure)
    ensures
        crate::step::found_row(Ok(Some(row)), on_error, on_missing) == Ok::<T, Failure>(row),
        crate::step::found_row(Ok::<Option<T>, DbError>(None), on_error, on_missing) == Err::<
            T,
            Failure,
        >(on_missing),
        crate::step::found_row(Err::<Option<T>, DbError>(DbError), on_error, on_missing) == Err::<
            T,
            Failure,
        >(on_error),
{
}

/// A login is refused as wrong credentials where no account has the name or
/// the password does not verify against a readable hash, and as the server's
/// fault where the stored hash cannot be read.
pub proof fn law_login_refusals(found: Result<Option<User>, DbError>, password: Seq<char>)
    ensures
        !(found matches Ok(Some(_))) ==> login_verdict(found, password) == Err::<User, Failure>(
            Failure::WrongCredentials,
        ),
        found matches Ok(Some(u)) ==> (!phc_parses(u.password@) ==> login_verdict(found, password)
            == Err::<User, Failure>(Failure::Internal)),
        found matches Ok(Some(u)) ==> (phc_parses(u.password@) && !argon2_verifies(password, u.password@)
            ==> login_verdict(found, password) == Err::<User, Failure>(Failure::WrongCredentials)),
{
}

/// The name check: a failed count is the server's fault, a name no account
/// has is free, a name some account has is taken.
pub proof fn law_name_check(count: Result<u64, DbError>)
    ensures
        count == Ok::<u64, DbError>(0) ==> username_verdict(count) == Ok::<(), Failure>(()),
        count matches Ok(n) ==> (n > 0 ==> username_verdict(count) == Err::<(), Failure>(
            Failure::UsernameTaken,
        )),
        count is Err ==> username_verdict(count) == Err::<(), Failure>(Failure::Internal),
{
}

/// Counting open loans: none among no loans, and one more for each added
/// loan that has no return date.
pub proof fn law_open_loan_count(loans: Seq<Record>, loan: Record)
    ensures
        active_count(Seq::<Record>::empty()) == 0,
        active_count(loans.push(loan)) == active_count(loans) + if loan.return_date is None {
            1int
        } else {
            0int
        },
{
    assert(loans.push(loan).drop_last() =~= loans);
}

/// A loan is listed with its own id, reader and book, and its borrow, due
/// and return dates written as `YYYY-MM-DD` (the return date only where it
/// was returned).
pub proof fn law_loan_listing(info: crate::lending::BorrowRecordInfo, loan: Record)
    requires
        crate::lending::lists_loan(info, loan),
    ensures
        info.id == loan.id && info.user_id == loan.user_id && info.book_id == loan.book_id,
        info.borrow_date@ == crate::time::date_text(loan.borrow_date@),
        info.expire_date@ == crate::time::date_text(loan.expire_date@),
        info.return_date is None <==> loan.return_date is None,
        loan.return_date matches Some(t) ==> (info.return_date matches Some(s) && s@
            == crate::time::date_text(t@)),
{
}

/// A renewal request is listed with its own id, its loan's reader and book,
/// its two dates as `YYYY-MM-DD`; the staff see no status, a reader sees
/// `pending`, `approved` or `rejected`.
pub proof fn law_renewal_info(
    info: crate::lending::RenewalInfo,
    renewal: Renew,
    loan: Record,
    for_manager: bool,
)
    requires
        crate::lending::lists_renewal(info, renewal, loan, for_manager),
    ensures
        info.id == renewal.id && info.user_id == loan.user_id && info.book_id == loan.book_id,
        info.request_date@ == crate::time::date_text(renewal.request_date@),
        info.expired_after@ == crate::time::date_text(renewal.expired_after@),
        for_manager ==> info.status is None,
        !for_manager && renewal.status == RenewStatus::Pending ==> (info.status matches Some(s) && s@
            == "pending"@),
        !for_manager && renewal.status == RenewStatus::Approved ==> (info.status matches Some(s) && s@
            == "approved"@),
        !for_manager && renewal.status == RenewStatus::Rejected ==> (info.status matches Some(s) && s@
            == "rejected"@),
{
}

/// A book is shown with its own fields and the categories given; it is shown
/// as lent exactly when one of its loans has no return date, and then with the
/// due date of the first such loan.
pub proof fn law_book_shown(
    info: crate::catalog::BookInfo,
    book: Book,
    category: Vec<String>,
    loans: Seq<Record>,
)
    requires
        crate::catalog::shows_book(info, book, category, loans),
    ensures
        info.id == book.id && info.title == book.title && info.author == book.author,
        info.category == category && info.description == book.description,
        info.published_date is None <==> book.published_date is None,
        info.borrowed <==> exists|i: int| 0 <= i < loans.len() && (#[trigger] loans[i]).return_date is None,
        info.expire_date is Some <==> info.borrowed,
        info.expire_date matches Some(s) ==> exists|i: int|
            0 <= i < loans.len() && (#[trigger] loans[i]).return_date is None && s@
                == crate::time::date_text(loans[i].expire_date@) && forall|j: int|
                0 <= j < i ==> (#[trigger] loans[j]).return_date is Some,
{
    if info.expire_date is Some {
        let i = choose|i: int| is_first_active(loans, i) && info.expire_date->0@ == crate::time::date_text(
            loans[i].expire_date@,
        );
        assert forall|j: int| 0 <= j < i implies (#[trigger] loans[j]).return_date is Some by {
            assert(!is_active(loans[j]));
        }
    }
    if info.borrowed {
        let i = choose|i: int| 0 <= i < loans.len() && is_active(#[trigger] loans[i]);
        assert(loans[i].return_date is None);
    }
    if exists|i: int| 0 <= i < loans.len() && (#[trigger] loans[i]).return_date is None {
        let i = choose|i: int| 0 <= i < loans.len() && (#[trigger] loans[i]).return_date is None;
        assert(is_active(loans[i]));
    }
}

/// Where every filing's category was found, a book's category names are
/// those categories' names, in the order of the filings.
pub proof fn law_category_names(found: Seq<Result<Option<crate::model::Category>, DbError>>)
    requires
        forall|k: int| 0 <= k < found.len() ==> (#[trigger] found[k]) matches Ok(Some(_)),
    ensures
        crate::catalog::found_names(found).len() == found.len(),
        forall|k: int|
            0 <= k < found.len() ==> (found[k] matches Ok(Some(c)) && #[trigger] crate::catalog::found_names(
                found,
            )[k] == c.name),
    decreases found.len(),
{
    if found.len() > 0 {
        let rest = found.drop_last();
        assert forall|k: int| 0 <= k < rest.len() implies (#[trigger] rest[k]) matches Ok(Some(_)) by {
            assert(rest[k] == found[k]);
        }
        law_category_names(rest);
        assert(found[found.len() - 1] matches Ok(Some(_)));
        assert forall|k: int| 0 <= k < found.len() implies (found[k] matches Ok(Some(c))
            && #[trigger] crate::catalog::found_names(found)[k] == c.name) by {
            if k < rest.len() {
                assert(rest[k] == found[k]);
            }
        }
    }
}

/// `needle` occurs in `hay` from position `p`: the characters of `hay` from
/// there are those of `needle`, one by one.
pub open spec fn occurs_at(needle: Seq<char>, hay: Seq<char>, p: int) -> bool {
    &&& 0 <= p
    &&& p + needle.len() <= hay.len()
    &&& forall|j: int| 0 <= j < needle.len() ==> #[trigger] hay[p + j] == needle[j]
}

/// A keyword occurs in a text when it occurs from some position.
pub proof fn law_occurs_in(needle: Seq<char>, hay: Seq<char>)
    ensures
        is_infix(needle, hay) <==> exists|p: int| #[trigger] occurs_at(needle, hay, p),
{
    if is_infix(needle, hay) {
        let p = choose|p: int|
            0 <= p && p + needle.len() <= hay.len() && #[trigger] hay.subrange(p, p + needle.len())
                == needle;
        assert forall|j: int| 0 <= j < needle.len() implies #[trigger] hay[p + j] == needle[j] by {
            assert(hay.subrange(p, p + needle.len())[j] == hay[p + j]);
        }
        assert(occurs_at(needle, hay, p));
    }
    if exists|p: int| #[trigger] occurs_at(needle, hay, p) {
        let p = choose|p: int| #[trigger] occurs_at(needle, hay, p);
        assert forall|j: int| 0 <= j < needle.len() implies #[trigger] hay.subrange(
            p,
            p + needle.len(),
        )[j] == needle[j] by {
            assert(hay[p + j] == needle[j]);
        }
        assert(hay.subrange(p, p + needle.len()) =~= needle);
    }
}

/// A header without the `Bearer ` scheme in front carries no token; with it,
/// the token is the UUID written after it, if that text is one.
pub proof fn law_bearer_header(header: &str)
    ensures
        !(header@.len() >= 7 && header@.subrange(0, 7) == seq!['B', 'e', 'a', 'r', 'e', 'r', ' '])
            ==> header_token(Some(header)) == Err::<u128, Failure>(Failure::MissingToken),
        header@.len() >= 7 && header@.subrange(0, 7) == seq!['B', 'e', 'a', 'r', 'e', 'r', ' ']
            ==> header_token(Some(header)) == match uuid_parse(header@.subrange(7, header@.len() as int)) {
            Some(id) => Ok::<u128, Failure>(id),
            None => Err(Failure::MissingToken),
        },
        header_token(None) == Err::<u128, Failure>(Failure::MissingToken),
{
}

/// The account a password-change path names: `me` is the caller; otherwise
/// a number is read only from ASCII digits, after at most one `+`.
pub proof fn law_path_target(id: Seq<char>, caller: usize)
    ensures
        crate::step::user_target(seq!['m', 'e'], caller) == Ok::<usize, Failure>(caller),
        id != seq!['m', 'e'] && crate::step::user_target(id, caller) is Ok ==> id.len() > 0 && forall|
            i: int,
        |
            0 <= i < id.len() ==> ('0' <= #[trigger] id[i] && id[i] <= '9') || (i == 0 && id[i] == '+'),
        crate::step::user_target(Seq::empty(), caller) == Err::<usize, Failure>(Failure::BadUserId),
{
    let d = crate::text::unsigned_digits(id);
    if id != seq!['m', 'e'] && crate::step::user_target(id, caller) is Ok {
        assert forall|i: int| 0 <= i < id.len() implies ('0' <= #[trigger] id[i] && id[i] <= '9') || (i
            == 0 && id[i] == '+') by {
            if id.len() > 0 && id[0] == '+' {
                if i > 0 {
                    assert(id[i] == d[i - 1]);
                }
            } else {
                assert(id[i] == d[i]);
            }
        }
    }
    assert(Seq::<char>::empty() != seq!['m', 'e']) by {
        assert(seq!['m', 'e'].len() == 2);
    }
}

/// Dates in requests are read as midnight UTC of the day, and dates in
/// answers are written with the pattern `%Y-%m-%d`.
pub proof fn law_date_conventions(text: Seq<char>, nanos: int)
    ensures
        crate::time::utc_midnight_of(text) == crate::time::civil_instant_of(text, 0, 0, 0, 0),
        crate::time::strftime_text(nanos, "%Y-%m-%d"@) matches Some(t) ==> crate::time::date_text(nanos)
            == t,
{
}

/// The permission names: staff are `manager`, readers `guest`; the statuses
/// readers see are `pending`, `approved` and `rejected`.
pub proof fn law_names_of_roles_and_statuses()
    ensures
        crate::model::manager_permission() == "manager"@,
        guest_permission() == "guest"@,
        crate::model::status_name(RenewStatus::Pending) == "pending"@,
        crate::model::status_name(RenewStatus::Approved) == "approved"@,
        crate::model::status_name(RenewStatus::Rejected) == "rejected"@,
{
    reveal_strlit("manager");
    reveal_strlit("guest");
    assert(crate::model::manager_permission() =~= "manager"@);
    assert(guest_permission() =~= "guest"@);
}

/// Reading a number digit by digit: no digits are zero, and each further
/// digit multiplies by ten and adds its value; a path of digits only names
/// the account with that number, where it fits.
pub proof fn law_decimal_reading(digits: Seq<char>, c: char, caller: usize)
    ensures
        crate::text::digits_value(Seq::<char>::empty()) == 0,
        crate::text::digits_value(digits.push(c)) == crate::text::digits_value(digits) * 10 + ((c as int)
            - 48),
        digits.len() > 0 && digits[0] != '+' && digits != seq!['m', 'e'] && (forall|i: int|
            0 <= i < digits.len() ==> '0' <= #[trigger] digits[i] && digits[i] <= '9')
            && crate::text::digits_value(digits) <= usize::MAX ==> crate::step::user_target(digits, caller)
            == Ok::<usize, Failure>(crate::text::digits_value(digits) as usize),
{
    assert(digits.push(c).drop_last() =~= digits);
}

/// A filing whose category lookup failed or found nothing adds no name.
pub proof fn law_unfound_category_skipped(
    found: Seq<Result<Option<crate::model::Category>, DbError>>,
    lookup: Result<Option<crate::model::Category>, DbError>,
)
    ensures
        !(lookup matches Ok(Some(_))) ==> crate::catalog::found_names(found.push(lookup))
            == crate::catalog::found_names(found),
        lookup matches Ok(Some(c)) ==> crate::catalog::found_names(found.push(lookup))
            == crate::catalog::found_names(found).push(c.name),
{
    assert(found.push(lookup).drop_last() =~= found);
}

} // verus!
