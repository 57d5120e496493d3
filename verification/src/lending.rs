//! Loans of books and requests to renew them.
use vstd::prelude::*;

use crate::model::{manager_permission, status_name, Claims, DbError, Record, Renew, RenewStatus};
use crate::reply::{Failure, Success};
use crate::step::indices_where;
use crate::time::{date_text, format_date, Timestamp};

verus! {

/// A loan is active until the book comes back.
pub open spec fn is_active(loan: Record) -> bool {
    loan.return_date is None
}

/// Whether some loan in `loans` is active.
pub open spec fn has_active(loans: Seq<Record>) -> bool {
    exists|i: int| 0 <= i < loans.len() && is_active(#[trigger] loans[i])
}

/// How many loans in `loans` are active.
pub open spec fn active_count(loans: Seq<Record>) -> nat
    decreases loans.len(),
{
    if loans.len() == 0 {
        0
    } else {
        active_count(loans.drop_last()) + if is_active(loans.last()) {
            1nat
        } else {
            0nat
        }
    }
}

/// `i` is the first active loan of `loans`.
pub open spec fn is_first_active(loans: Seq<Record>, i: int) -> bool {
    &&& 0 <= i < loans.len()
    &&& is_active(loans[i])
    &&& forall|j: int| 0 <= j < i ==> !is_active(#[trigger] loans[j])
}

/// A loan to be stored: it starts active.
#[derive(Clone, Copy, Debug, PartialEq, Eq)]
pub struct NewRecord {
    pub user_id: usize,
    pub book_id: usize,
    pub borrow_date: Timestamp,
    pub expire_date: Timestamp,
}

/// The row that storing `loan` under id `id` gives.
pub open spec fn stored_loan(loan: NewRecord, id: usize) -> Record {
    Record {
        id,
        borrow_date: loan.borrow_date,
        expire_date: loan.expire_date,
        return_date: None,
        user_id: loan.user_id,
        book_id: loan.book_id,
    }
}

/// The loan that lending the book to `user_id` at `now`, due at `due`,
/// creates, given the lookup of the book's loans: none while the book is out.
pub open spec fn borrow_plan(
    loans: Result<Vec<Record>, DbError>,
    user_id: usize,
    book_id: usize,
    now: Timestamp,
    due: Timestamp,
) -> Result<NewRecord, Failure> {
    match loans {
        Err(_) => Err(Failure::Internal),
        Ok(v) => if has_active(v@) {
            Err(Failure::AlreadyBorrowed)
        } else {
            Ok(NewRecord { user_id, book_id, borrow_date: now, expire_date: due })
        },
    }
}

/// Index of the first active loan in `loans`, if any.
pub fn first_active(loans: &Vec<Record>) -> (r: Option<usize>)
    ensures
        r is None <==> !has_active(loans@),
        r matches Some(i) ==> is_first_active(loans@, i as int),
{
    let mut i: usize = 0;
    while i < loans.len()
        invariant
            i <= loans.len(),
            forall|j: int| 0 <= j < i ==> !is_active(#[trigger] loans@[j]),
        decreases loans.len() - i,
    {
        if loans[i].return_date.is_none() {
            return Some(i);
        }
        i = i + 1;
    }
    None
}

/// The first active loan is the only index that is first and active.
pub proof fn lemma_first_active_unique(loans: Seq<Record>, i: int, k: int)
    requires
        is_first_active(loans, i),
        is_first_active(loans, k),
    ensures
        i == k,
{
    if i < k {
        assert(!is_active(loans[i]));
    } else if k < i {
        assert(!is_active(loans[k]));
    }
}

/// Who may lend a book, and until when: the staff, with a due date given as
/// `YYYY-MM-DD`.
pub fn check_borrow_request(claims: &Claims, due: &str) -> (r: Result<Timestamp, Failure>)
    ensures
        claims.permission@ != manager_permission() ==> r == Err::<Timestamp, Failure>(Failure::Forbidden),
        claims.permission@ == manager_permission() ==> (crate::time::utc_midnight_of(due@) is None
            <==> r == Err::<Timestamp, Failure>(Failure::BadDate)),
        r matches Ok(t) ==> crate::time::utc_midnight_of(due@) == Some(t@),
        claims.permission@ == manager_permission() ==> (crate::time::utc_midnight_of(due@) matches Some(
            n,
        ) ==> (r matches Ok(t) && t@ == n)),
{
    crate::step::require_manager(claims)?;
    crate::step::read_date(due)
}

/// Decides a loan of book `book_id` to `user_id` from the lookup of the
/// book's loans: the book is lent only while no loan of it is active.
pub fn plan_borrow(
    loans: Result<Vec<Record>, DbError>,
    user_id: usize,
    book_id: usize,
    now: Timestamp,
    due: Timestamp,
) -> (r: Result<NewRecord, Failure>)
    ensures
        r == borrow_plan(loans, user_id, book_id, now, due),
{
    match loans {
        Err(_) => Err(Failure::Internal),
        Ok(v) => match first_active(&v) {
            Some(_) => Err(Failure::AlreadyBorrowed),
            None => Ok(NewRecord { user_id, book_id, borrow_date: now, expire_date: due }),
        },
    }
}

/// The loan that a return ends, given the lookup of the user's loans of the
/// book: the first that is active.
pub open spec fn return_plan(loans: Result<Vec<Record>, DbError>) -> Result<usize, Failure> {
    match loans {
        Err(_) => Err(Failure::Internal),
        Ok(v) => if has_active(v@) {
            Ok(v@[choose|i: int| is_first_active(v@, i)].id)
        } else {
            Err(Failure::NoActiveLoan)
        },
    }
}

/// Decides which loan a return ends, from the lookup of the user's loans of
/// the book; it answers the loan's id.
pub fn plan_return(loans: Result<Vec<Record>, DbError>) -> (r: Result<usize, Failure>)
    ensures
        r == return_plan(loans),
{
    match loans {
        Err(_) => Err(Failure::Internal),
        Ok(v) => match first_active(&v) {
            None => Err(Failure::NoActiveLoan),
            Some(i) => {
                proof {
                    let k = choose|k: int| is_first_active(v@, k);
                    lemma_first_active_unique(v@, i as int, k);
                }
                Ok(v[i].id)
            },
        },
    }
}

/// A loan as listed.
#[derive(Debug, PartialEq, Eq)]
pub struct BorrowRecordInfo {
    pub id: usize,
    pub user_id: usize,
    pub book_id: usize,
    pub borrow_date: String,
    pub expire_date: String,
    pub return_date: Option<String>,
}

/// `info` lists `loan`, its dates written as `YYYY-MM-DD`.
pub open spec fn lists_loan(info: BorrowRecordInfo, loan: Record) -> bool {
    &&& info.id == loan.id
    &&& info.user_id == loan.user_id
    &&& info.book_id == loan.book_id
    &&& info.borrow_date@ == date_text(loan.borrow_date@)
    &&& info.expire_date@ == date_text(loan.expire_date@)
    &&& match (info.return_date, loan.return_date) {
        (None, None) => true,
        (Some(s), Some(t)) => s@ == date_text(t@),
        _ => false,
    }
}

/// A loan as listed.
pub fn describe_loan(loan: &Record) -> (r: BorrowRecordInfo)
    ensures
        lists_loan(r, *loan),
{
    BorrowRecordInfo {
        id: loan.id,
        user_id: loan.user_id,
        book_id: loan.book_id,
        borrow_date: format_date(&loan.borrow_date),
        expire_date: format_date(&loan.expire_date),
        return_date: match &loan.return_date {
            Some(t) => Some(format_date(t)),
            None => None,
        },
    }
}

/// The loans at `picks`, listed in that order.
pub fn describe_loans_at(loans: &Vec<Record>, picks: &Vec<usize>) -> (r: Vec<BorrowRecordInfo>)
    requires
        forall|k: int| 0 <= k < picks.len() ==> #[trigger] picks@[k] < loans.len(),
    ensures
        r.len() == picks.len(),
        forall|k: int| 0 <= k < picks.len() ==> lists_loan(#[trigger] r@[k], loans@[picks@[k] as int]),
{
    let mut r: Vec<BorrowRecordInfo> = Vec::new();
    let mut k: usize = 0;
    while k < picks.len()
        invariant
            k <= picks.len(),
            r.len() == k,
            forall|k: int| 0 <= k < picks.len() ==> #[trigger] picks@[k] < loans.len(),
            forall|q: int| 0 <= q < k ==> lists_loan(#[trigger] r@[q], loans@[picks@[q] as int]),
        decreases picks.len() - k,
    {
        r.push(describe_loan(&loans[picks[k]]));
        k = k + 1;
    }
    r
}

/// All the loans, listed in order.
pub fn describe_loans(loans: &Vec<Record>) -> (r: Vec<BorrowRecordInfo>)
    ensures
        r.len() == loans.len(),
        forall|k: int| 0 <= k < loans.len() ==> lists_loan(#[trigger] r@[k], loans@[k]),
{
    let mut r: Vec<BorrowRecordInfo> = Vec::new();
    let mut k: usize = 0;
    while k < loans.len()
        invariant
            k <= loans.len(),
            r.len() == k,
            forall|q: int| 0 <= q < k ==> lists_loan(#[trigger] r@[q], loans@[q]),
        decreases loans.len() - k,
    {
        r.push(describe_loan(&loans[k]));
        k = k + 1;
    }
    r
}

/// A loan is overdue at `now`: it is active and fell due before `now`; in a
/// listing of loans that fell due after `since`, also its due date lies
/// after that.
pub open spec fn is_overdue(loan: Record, now: Timestamp, since: Option<Timestamp>) -> bool {
    &&& is_active(loan)
    &&& loan.expire_date@ < now@
    &&& since matches Some(s) ==> s@ < loan.expire_date@
}

/// The lower bound of the overdue listing: the date asked for, or none, which
/// lists every loan that is overdue now.
pub fn overdue_since(text: Option<&str>) -> (r: Result<Option<Timestamp>, Failure>)
    ensures
        text is None ==> r == Ok::<Option<Timestamp>, Failure>(None),
        text matches Some(t) ==> (crate::time::utc_midnight_of(t@) is None <==> r == Err::<
            Option<Timestamp>,
            Failure,
        >(Failure::BadDate)),
        text matches Some(t) ==> (crate::time::utc_midnight_of(t@) matches Some(n) ==> (r matches Ok(
            Some(s),
        ) && s@ == n)),
{
    match text {
        Some(t) => match crate::step::read_date(t) {
            Ok(s) => Ok(Some(s)),
            Err(f) => Err(f),
        },
        None => Ok(None),
    }
}

/// The indices of the loans that the overdue listing shows, in order.
pub open spec fn overdue_listed(loans: Seq<Record>, now: Timestamp, since: Option<Timestamp>) -> Seq<usize> {
    indices_where(loans.len() as int, |i: int| is_overdue(loans[i], now, since))
}

/// The indices of the overdue loans, in order.
pub fn select_overdue(loans: &Vec<Record>, now: Timestamp, since: Option<Timestamp>) -> (r: Vec<usize>)
    ensures
        r@ == indices_where(loans.len() as int, |i: int| is_overdue(loans@[i], now, since)),
        r@ == overdue_listed(loans@, now, since),
{
    let ghost keep = |i: int| is_overdue(loans@[i], now, since);
    let mut r: Vec<usize> = Vec::new();
    let mut i: usize = 0;
    while i < loans.len()
        invariant
            i <= loans.len(),
            keep == (|i: int| is_overdue(loans@[i], now, since)),
            r@ == indices_where(i as int, keep),
        decreases loans.len() - i,
    {
        let loan = &loans[i];
        let after_since = match &since {
            Some(s) => s.is_before(&loan.expire_date),
            None => true,
        };
        if loan.return_date.is_none() && loan.expire_date.is_before(&now) && after_since {
            r.push(i);
        }
        i = i + 1;
    }
    r
}

/// A renewal request to be stored.
#[derive(Clone, Copy, Debug, PartialEq, Eq)]
pub struct NewRenew {
    pub request_date: Timestamp,
    pub expired_after: Timestamp,
    pub status: RenewStatus,
    pub record_id: usize,
}

/// The request that asking at `now` to move `loan`'s due date to `wanted`
/// creates: only the borrower may ask, and only while the loan is active.
pub open spec fn renewal_plan(claims: Claims, loan: Record, now: Timestamp, wanted: Timestamp) -> Result<NewRenew, Failure> {
    if loan.user_id != claims.user_id {
        Err(Failure::NotOwnRecord)
    } else if loan.return_date is Some {
        Err(Failure::AlreadyReturned)
    } else {
        Ok(NewRenew { request_date: now, expired_after: wanted, status: RenewStatus::Pending, record_id: loan.id })
    }
}

/// Decides a request to renew `loan`.
pub fn plan_renewal(claims: &Claims, loan: &Record, now: Timestamp, wanted: Timestamp) -> (r: Result<NewRenew, Failure>)
    ensures
        r == renewal_plan(*claims, *loan, now, wanted),
{
    if loan.user_id != claims.user_id {
        Err(Failure::NotOwnRecord)
    } else if loan.return_date.is_some() {
        Err(Failure::AlreadyReturned)
    } else {
        Ok(NewRenew { request_date: now, expired_after: wanted, status: RenewStatus::Pending, record_id: loan.id })
    }
}

/// Whether the renewal at index `i` is listed: the staff see the pending
/// requests, a reader the requests on their own loans, as `owners` (the
/// lookups of the loans of the requests) tells.
pub open spec fn shows_renewal(
    for_manager: bool,
    user_id: usize,
    renewals: Seq<Renew>,
    owners: Seq<Result<Option<Record>, DbError>>,
    i: int,
) -> bool {
    if for_manager {
        renewals[i].status == RenewStatus::Pending
    } else {
        owners[i] matches Ok(Some(loan)) && loan.user_id == user_id
    }
}

/// The indices of the renewal requests listed to a caller who is staff
/// (`for_manager`) or the reader `user_id`, in order.
pub open spec fn renewals_shown(
    for_manager: bool,
    user_id: usize,
    renewals: Seq<Renew>,
    owners: Seq<Result<Option<Record>, DbError>>,
) -> Seq<usize> {
    indices_where(renewals.len() as int, |i: int| shows_renewal(for_manager, user_id, renewals, owners, i))
}

/// The indices of the renewal requests that the caller sees, in order.
pub fn visible_renewals(
    claims: &Claims,
    renewals: &Vec<Renew>,
    owners: &Vec<Result<Option<Record>, DbError>>,
) -> (r: Vec<usize>)
    requires
        claims.permission@ != manager_permission() ==> owners.len() == renewals.len(),
    ensures
        r@ == indices_where(
            renewals.len() as int,
            |i: int|
                shows_renewal(
                    claims.permission@ == manager_permission(),
                    claims.user_id,
                    renewals@,
                    owners@,
                    i,
                ),
        ),
        r@ == renewals_shown(claims.permission@ == manager_permission(), claims.user_id, renewals@, owners@),
{
    let for_manager = claims.is_manager();
    let ghost keep = |i: int| shows_renewal(for_manager, claims.user_id, renewals@, owners@, i);
    let mut r: Vec<usize> = Vec::new();
    let mut i: usize = 0;
    while i < renewals.len()
        invariant
            i <= renewals.len(),
            !for_manager ==> owners.len() == renewals.len(),
            keep == (|i: int| shows_renewal(for_manager, claims.user_id, renewals@, owners@, i)),
            r@ == indices_where(i as int, keep),
        decreases renewals.len() - i,
    {
        let shown = if for_manager {
            renewals[i].status == RenewStatus::Pending
        } else {
            match &owners[i] {
                Ok(Some(loan)) => loan.user_id == claims.user_id,
                _ => false,
            }
        };
        if shown {
            r.push(i);
        }
        i = i + 1;
    }
    r
}

/// A renewal request as listed; the status is shown to readers only.
#[derive(Debug, PartialEq, Eq)]
pub struct RenewalInfo {
    pub id: usize,
    pub user_id: usize,
    pub book_id: usize,
    pub request_date: String,
    pub expired_after: String,
    pub status: Option<String>,
}

/// `info` lists `renewal` on `loan`; only readers see its status.
pub open spec fn lists_renewal(info: RenewalInfo, renewal: Renew, loan: Record, for_manager: bool) -> bool {
    &&& info.id == renewal.id
    &&& info.user_id == loan.user_id
    &&& info.book_id == loan.book_id
    &&& info.request_date@ == date_text(renewal.request_date@)
    &&& info.expired_after@ == date_text(renewal.expired_after@)
    &&& match info.status {
        None => for_manager,
        Some(s) => !for_manager && s@ == status_name(renewal.status),
    }
}

/// Lists a renewal request together with its loan, as the lookup of the loan
/// found it; a request whose loan is not found is left out (`None`).
pub fn describe_renewal(for_manager: bool, renewal: &Renew, found: Result<Option<Record>, DbError>) -> (r: Option<RenewalInfo>)
    ensures
        found matches Ok(Some(_)) <==> r is Some,
        found matches Ok(Some(loan)) ==> (r matches Some(info) && lists_renewal(info, *renewal, loan, for_manager)),
{
    match found {
        Ok(Some(loan)) => Some(
            RenewalInfo {
                id: renewal.id,
                user_id: loan.user_id,
                book_id: loan.book_id,
                request_date: format_date(&renewal.request_date),
                expired_after: format_date(&renewal.expired_after),
                status: if for_manager {
                    None
                } else {
                    Some(String::from_str(renewal.status.as_str()))
                },
            },
        ),
        _ => None,
    }
}

/// What deciding a renewal request does: its new status, the loan's new due
/// date where it is approved, and the answer.
#[derive(Clone, Copy, Debug, PartialEq, Eq)]
pub struct RenewalDecision {
    pub status: RenewStatus,
    pub extend_to: Option<Timestamp>,
    pub reply: Success,
}

/// The decision on a renewal request: a request is decided once.
pub open spec fn renewal_decision(renewal: Renew, approved: bool) -> Result<RenewalDecision, Failure> {
    if renewal.status != RenewStatus::Pending {
        Err(Failure::RenewalHandled)
    } else if approved {
        Ok(
            RenewalDecision {
                status: RenewStatus::Approved,
                extend_to: Some(renewal.expired_after),
                reply: Success::RenewalApproved,
            },
        )
    } else {
        Ok(RenewalDecision { status: RenewStatus::Rejected, extend_to: None, reply: Success::RenewalRejected })
    }
}

/// Decides a renewal request.
pub fn decide_renewal(renewal: &Renew, approved: bool) -> (r: Result<RenewalDecision, Failure>)
    ensures
        r == renewal_decision(*renewal, approved),
{
    if renewal.status != RenewStatus::Pending {
        Err(Failure::RenewalHandled)
    } else if approved {
        Ok(
            RenewalDecision {
                status: RenewStatus::Approved,
                extend_to: Some(renewal.expired_after),
                reply: Success::RenewalApproved,
            },
        )
    } else {
        Ok(RenewalDecision { status: RenewStatus::Rejected, extend_to: None, reply: Success::RenewalRejected })
    }
}

/// The loan whose due date an approval moves, and to when: where the
/// decision extends and the lookup of the request's loan found it. An
/// approval whose loan is gone moves nothing and still stands.
pub fn loan_to_extend(decision: &RenewalDecision, found: Result<Option<Record>, DbError>) -> (r: Option<(usize, Timestamp)>)
    ensures
        r == match (decision.extend_to, found) {
            (Some(until), Ok(Some(loan))) => Some((loan.id, until)),
            _ => None::<(usize, Timestamp)>,
        },
{
    match (decision.extend_to, found) {
        (Some(until), Ok(Some(loan))) => Some((loan.id, until)),
        _ => None,
    }
}

} // verus!
