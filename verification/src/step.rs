//! Decisions that many requests share: reading a database answer, and who
//! may act.
use vstd::prelude::*;

use crate::model::{manager_permission, Claims, DbError};
use crate::reply::Failure;
use crate::text::{decimal_of, is_me, parse_decimal};
use crate::time::{parse_date, utc_midnight_of, Timestamp};

verus! {

/// The row a lookup found; `on_error` where the lookup failed and
/// `on_missing` where it found nothing.
pub open spec fn found_row<T>(found: Result<Option<T>, DbError>, on_error: Failure, on_missing: Failure) -> Result<T, Failure> {
    match found {
        Err(_) => Err(on_error),
        Ok(None) => Err(on_missing),
        Ok(Some(row)) => Ok(row),
    }
}

/// Takes the row out of a lookup's answer, or refuses the request.
pub fn require_row<T>(found: Result<Option<T>, DbError>, on_error: Failure, on_missing: Failure) -> (r: Result<T, Failure>)
    ensures
        r == found_row(found, on_error, on_missing),
{
    match found {
        Err(_) => Err(on_error),
        Ok(None) => Err(on_missing),
        Ok(Some(row)) => Ok(row),
    }
}

/// Takes the value out of a database answer, or refuses the request with
/// `on_error` where the call failed.
pub fn require_ok<T>(answer: Result<T, DbError>, on_error: Failure) -> (r: Result<T, Failure>)
    ensures
        r == match answer {
            Ok(v) => Ok(v),
            Err(_) => Err::<T, Failure>(on_error),
        },
{
    match answer {
        Ok(v) => Ok(v),
        Err(_) => Err(on_error),
    }
}

/// Only the staff may go on.
pub fn require_manager(claims: &Claims) -> (r: Result<(), Failure>)
    ensures
        r == if claims.permission@ == manager_permission() {
            Ok::<(), Failure>(())
        } else {
            Err(Failure::Forbidden)
        },
{
    if claims.is_manager() {
        Ok(())
    } else {
        Err(Failure::Forbidden)
    }
}

/// The staff, and the account's own user, may act on account `user_id`.
pub fn may_act_for(claims: &Claims, user_id: usize) -> (r: Result<(), Failure>)
    ensures
        r == if claims.permission@ == manager_permission() || claims.user_id == user_id {
            Ok::<(), Failure>(())
        } else {
            Err(Failure::Forbidden)
        },
{
    if !claims.is_manager() && claims.user_id != user_id {
        Err(Failure::Forbidden)
    } else {
        Ok(())
    }
}

/// The account that a path names for the caller `caller`: `me` names the
/// caller, a decimal number names that account.
pub open spec fn user_target(id: Seq<char>, caller: usize) -> Result<usize, Failure> {
    if id == seq!['m', 'e'] {
        Ok(caller)
    } else {
        match decimal_of(id) {
            Some(n) => Ok(n),
            None => Err(Failure::BadUserId),
        }
    }
}

/// Reads the account that a path names: `me` for the caller, or an id.
pub fn resolve_user_target(id: &str, claims: &Claims) -> (r: Result<usize, Failure>)
    ensures
        r == user_target(id@, claims.user_id),
{
    if is_me(id) {
        Ok(claims.user_id)
    } else {
        match parse_decimal(id) {
            Some(n) => Ok(n),
            None => Err(Failure::BadUserId),
        }
    }
}

/// The indices below `n` at which `keep` holds, in increasing order.
pub open spec fn indices_where(n: int, keep: spec_fn(int) -> bool) -> Seq<usize>
    decreases n,
{
    if n <= 0 {
        Seq::empty()
    } else if keep(n - 1) {
        indices_where(n - 1, keep).push((n - 1) as usize)
    } else {
        indices_where(n - 1, keep)
    }
}

/// What `indices_where(n, keep)` holds: exactly the indices below `n` at
/// which `keep` holds, each once, in increasing order.
pub proof fn lemma_indices_where(n: int, keep: spec_fn(int) -> bool)
    requires
        n <= usize::MAX,
    ensures
        forall|k: int|
            0 <= k < indices_where(n, keep).len() ==> 0 <= #[trigger] indices_where(n, keep)[k] < n
                && keep(indices_where(n, keep)[k] as int),
        forall|k1: int, k2: int|
            0 <= k1 < k2 < indices_where(n, keep).len() ==> #[trigger] indices_where(n, keep)[k1]
                < #[trigger] indices_where(n, keep)[k2],
        forall|i: int| 0 <= i < n ==> (#[trigger] indices_where(n, keep).contains(i as usize) <==> keep(i)),
    decreases n,
{
    if n > 0 {
        lemma_indices_where(n - 1, keep);
        let prev = indices_where(n - 1, keep);
        let all = indices_where(n, keep);
        assert forall|i: int| 0 <= i < n implies (#[trigger] all.contains(i as usize) <==> keep(i)) by {
            if i < n - 1 {
                if all.contains(i as usize) {
                    let k = choose|k: int| 0 <= k < all.len() && all[k] == i as usize;
                    if k < prev.len() {
                        assert(all[k] == prev[k]);
                        assert(prev.contains(i as usize));
                    }
                }
                if prev.contains(i as usize) {
                    let k = choose|k: int| 0 <= k < prev.len() && prev[k] == i as usize;
                    assert(all[k] == prev[k]);
                }
            } else {
                if keep(i) {
                    assert(all[all.len() - 1] == i as usize);
                } else {
                    if all.contains(i as usize) {
                        let k = choose|k: int| 0 <= k < all.len() && all[k] == i as usize;
                        assert(all[k] == prev[k]);
                    }
                }
            }
        }
    }
}

/// Reads a `YYYY-MM-DD` date given in a request, as midnight UTC; a text
/// that is no such date refuses the request.
pub fn read_date(text: &str) -> (r: Result<Timestamp, Failure>)
    ensures
        utc_midnight_of(text@) is None <==> r == Err::<Timestamp, Failure>(Failure::BadDate),
        r matches Ok(t) ==> utc_midnight_of(text@) == Some(t@),
        utc_midnight_of(text@) matches Some(n) ==> (r matches Ok(t) && t@ == n),
{
    match parse_date(text) {
        Some(t) => Ok(t),
        None => Err(Failure::BadDate),
    }
}

} // verus!
