use bookshelf::lending::{check_borrow_request, decide_renewal, describe_loan, describe_loans, describe_loans_at, describe_renewal, loan_to_extend, overdue_since, plan_borrow, plan_renewal, plan_return, select_overdue, visible_renewals, BorrowRecordInfo, NewRecord, NewRenew, RenewalDecision, RenewalInfo};
use bookshelf::model::{Claims, DbError, Record, Renew, RenewStatus};
use bookshelf::reply::{Failure, Success};
use bookshelf::time::Timestamp;

const DAY: i128 = 86_400 * 1_000_000_000;
const BASE: i128 = 1_717_200_000 * 1_000_000_000; // 2024-06-01T00:00:00Z

fn at(nanos: i128) -> Timestamp {
    Timestamp::from_nanosecond(nanos).unwrap()
}

fn day(n: i128) -> Timestamp {
    at(BASE + n * DAY)
}

fn loan(id: usize, user_id: usize, due_day: i128, returned_day: Option<i128>) -> Record {
    Record { id, borrow_date: day(0), expire_date: day(due_day), return_date: returned_day.map(day), user_id, book_id: 9 }
}

fn claims(user_id: usize, permission: &str) -> Claims {
    Claims { user_id, permission: permission.to_string() }
}

fn renewal(id: usize, record_id: usize, status: RenewStatus) -> Renew {
    Renew { id, request_date: day(1), expired_after: day(30), status, record_id }
}

#[test]
fn borrow_request_checks() {
    assert_eq!(check_borrow_request(&claims(1, "guest"), "2024-07-01"), Err(Failure::Forbidden));
    assert_eq!(check_borrow_request(&claims(1, "manager"), "tomorrow"), Err(Failure::BadDate));
    assert_eq!(check_borrow_request(&claims(1, "manager"), "2024-06-11"), Ok(day(10)));
}

#[test]
fn borrow_plans() {
    assert_eq!(plan_borrow(Err(DbError), 1, 9, day(0), day(10)), Err(Failure::Internal));
    assert_eq!(
        plan_borrow(Ok(vec![loan(1, 2, 5, Some(3))]), 1, 9, day(0), day(10)),
        Ok(NewRecord { user_id: 1, book_id: 9, borrow_date: day(0), expire_date: day(10) })
    );
    assert_eq!(
        plan_borrow(Ok(vec![loan(1, 2, 5, Some(3)), loan(2, 2, 5, None)]), 1, 9, day(0), day(10)),
        Err(Failure::AlreadyBorrowed)
    );
}

#[test]
fn lent_book_is_out() {
    let before = vec![loan(1, 2, 5, Some(3))];
    let planned = plan_borrow(Ok(vec![loan(1, 2, 5, Some(3))]), 1, 9, day(4), day(10)).unwrap();
    let mut after = before;
    after.push(Record {
        id: 2,
        borrow_date: planned.borrow_date,
        expire_date: planned.expire_date,
        return_date: None,
        user_id: planned.user_id,
        book_id: planned.book_id,
    });
    assert_eq!(plan_borrow(Ok(after), 3, 9, day(5), day(12)), Err(Failure::AlreadyBorrowed));
}

#[test]
fn return_plans() {
    assert_eq!(plan_return(Err(DbError)), Err(Failure::Internal));
    assert_eq!(plan_return(Ok(vec![])), Err(Failure::NoActiveLoan));
    assert_eq!(plan_return(Ok(vec![loan(1, 1, 5, Some(2))])), Err(Failure::NoActiveLoan));
    assert_eq!(plan_return(Ok(vec![loan(1, 1, 5, Some(2)), loan(4, 1, 8, None), loan(6, 1, 9, None)])), Ok(4));
}

#[test]
fn returned_book_can_be_lent() {
    let mut loans = vec![loan(1, 1, 5, Some(2)), loan(4, 1, 8, None)];
    let id = plan_return(Ok(vec![loan(1, 1, 5, Some(2)), loan(4, 1, 8, None)])).unwrap();
    assert_eq!(id, 4);
    loans[1].return_date = Some(day(7));
    assert!(plan_borrow(Ok(loans), 2, 9, day(8), day(20)).is_ok());
}

#[test]
fn loans_listed() {
    let info = describe_loan(&loan(3, 2, 10, Some(4)));
    assert_eq!(
        info,
        BorrowRecordInfo {
            id: 3,
            user_id: 2,
            book_id: 9,
            borrow_date: "2024-06-01".to_string(),
            expire_date: "2024-06-11".to_string(),
            return_date: Some("2024-06-05".to_string()),
        }
    );
    let loans = vec![loan(1, 1, 1, None), loan(2, 1, 2, None)];
    let all = describe_loans(&loans);
    assert_eq!(all.len(), 2);
    assert_eq!(all[1].id, 2);
    assert_eq!(all[0].return_date, None);
    let some = describe_loans_at(&loans, &vec![1]);
    assert_eq!(some.len(), 1);
    assert_eq!(some[0].expire_date, "2024-06-03");
}

#[test]
fn overdue_start() {
    assert_eq!(overdue_since(None), Ok(None));
    assert_eq!(overdue_since(Some("2024-06-02")), Ok(Some(day(1))));
    assert_eq!(overdue_since(Some("06-02-2024")), Err(Failure::BadDate));
}

#[test]
fn overdue_selection() {
    let loans = vec![
        loan(1, 1, 5, None),     // overdue
        loan(2, 1, 5, Some(6)),  // returned
        loan(3, 1, 20, None),    // not yet due
        loan(4, 1, 1, None),     // due before the start
        loan(5, 1, 2, None),     // due exactly at the start
        loan(6, 1, 10, None),    // due exactly now
    ];
    assert_eq!(select_overdue(&loans, day(10), Some(day(2))), vec![0]);
    assert_eq!(select_overdue(&loans, day(11), Some(day(0))), vec![0, 3, 4, 5]);
    // With no lower bound, every active loan due before now is overdue.
    assert_eq!(select_overdue(&loans, day(10), None), vec![0, 3, 4]);
    assert_eq!(select_overdue(&loans, day(11), None), vec![0, 3, 4, 5]);
}

#[test]
fn renewal_requests() {
    let me = claims(1, "guest");
    assert_eq!(plan_renewal(&me, &loan(5, 2, 10, None), day(3), day(20)), Err(Failure::NotOwnRecord));
    assert_eq!(plan_renewal(&me, &loan(5, 1, 10, Some(4)), day(3), day(20)), Err(Failure::AlreadyReturned));
    assert_eq!(
        plan_renewal(&me, &loan(5, 1, 10, None), day(3), day(20)),
        Ok(NewRenew { request_date: day(3), expired_after: day(20), status: RenewStatus::Pending, record_id: 5 })
    );
}

#[test]
fn renewals_visible() {
    let renewals = vec![
        renewal(1, 10, RenewStatus::Pending),
        renewal(2, 11, RenewStatus::Approved),
        renewal(3, 12, RenewStatus::Pending),
    ];
    assert_eq!(visible_renewals(&claims(9, "manager"), &renewals, &vec![]), vec![0, 2]);
    let owners = vec![Ok(Some(loan(10, 1, 5, None))), Ok(Some(loan(11, 1, 5, None))), Ok(Some(loan(12, 2, 5, None)))];
    assert_eq!(visible_renewals(&claims(1, "guest"), &renewals, &owners), vec![0, 1]);
    let owners = vec![Err(DbError), Ok(None), Ok(Some(loan(12, 1, 5, None)))];
    assert_eq!(visible_renewals(&claims(1, "guest"), &renewals, &owners), vec![2]);
}

#[test]
fn renewals_described() {
    let r = renewal(2, 11, RenewStatus::Approved);
    assert_eq!(describe_renewal(false, &r, Ok(None)), None);
    assert_eq!(describe_renewal(false, &r, Err(DbError)), None);
    assert_eq!(
        describe_renewal(false, &r, Ok(Some(loan(11, 4, 5, None)))),
        Some(RenewalInfo {
            id: 2,
            user_id: 4,
            book_id: 9,
            request_date: "2024-06-02".to_string(),
            expired_after: "2024-07-01".to_string(),
            status: Some("approved".to_string()),
        })
    );
    assert_eq!(describe_renewal(true, &r, Ok(Some(loan(11, 4, 5, None)))).unwrap().status, None);
}

#[test]
fn renewal_decisions() {
    let pending = renewal(1, 10, RenewStatus::Pending);
    assert_eq!(
        decide_renewal(&pending, true),
        Ok(RenewalDecision { status: RenewStatus::Approved, extend_to: Some(day(30)), reply: Success::RenewalApproved })
    );
    assert_eq!(
        decide_renewal(&pending, false),
        Ok(RenewalDecision { status: RenewStatus::Rejected, extend_to: None, reply: Success::RenewalRejected })
    );
    assert_eq!(decide_renewal(&renewal(1, 10, RenewStatus::Rejected), true), Err(Failure::RenewalHandled));
}

#[test]
fn renewal_decided_once() {
    let pending = renewal(1, 10, RenewStatus::Pending);
    let d = decide_renewal(&pending, true).unwrap();
    let stored = Renew { status: d.status, ..pending };
    assert_eq!(decide_renewal(&stored, false), Err(Failure::RenewalHandled));
    assert_eq!(decide_renewal(&stored, true), Err(Failure::RenewalHandled));
}

#[test]
fn status_names() {
    assert_eq!(RenewStatus::Pending.as_str(), "pending");
    assert_eq!(RenewStatus::Approved.as_str(), "approved");
    assert_eq!(RenewStatus::Rejected.as_str(), "rejected");
}

#[test]
fn approval_extends_the_found_loan() {
    let approved = decide_renewal(&renewal(1, 5, RenewStatus::Pending), true).unwrap();
    let rejected = decide_renewal(&renewal(1, 5, RenewStatus::Pending), false).unwrap();
    assert_eq!(loan_to_extend(&approved, Ok(Some(loan(5, 2, 10, None)))), Some((5, day(30))));
    assert_eq!(loan_to_extend(&approved, Ok(None)), None);
    assert_eq!(loan_to_extend(&approved, Err(DbError)), None);
    assert_eq!(loan_to_extend(&rejected, Ok(Some(loan(5, 2, 10, None)))), None);
}

#[test]
fn borrow_return_borrow() {
    // Book 9 has one earlier loan, returned.
    let earlier = loan(1, 3, 5, Some(4));
    let planned = plan_borrow(Ok(vec![copy_row(&earlier)]), 2, 9, day(6), day(20)).unwrap();
    let stored = Record {
        id: 2,
        borrow_date: planned.borrow_date,
        expire_date: planned.expire_date,
        return_date: None,
        user_id: planned.user_id,
        book_id: planned.book_id,
    };
    // Lending again is refused while it is out.
    assert_eq!(
        plan_borrow(Ok(vec![copy_row(&earlier), copy_row(&stored)]), 4, 9, day(7), day(21)),
        Err(Failure::AlreadyBorrowed)
    );
    // The borrower's return lookup sees only the new loan; it is the one ended.
    assert_eq!(plan_return(Ok(vec![copy_row(&stored)])), Ok(2));
    let returned = Record { return_date: Some(day(8)), ..stored };
    // Once returned, the book is lent again.
    assert_eq!(
        plan_borrow(Ok(vec![earlier, returned]), 4, 9, day(9), day(21)),
        Ok(NewRecord { user_id: 4, book_id: 9, borrow_date: day(9), expire_date: day(21) })
    );
}

fn copy_row(r: &Record) -> Record {
    Record {
        id: r.id,
        borrow_date: r.borrow_date,
        expire_date: r.expire_date,
        return_date: r.return_date,
        user_id: r.user_id,
        book_id: r.book_id,
    }
}
