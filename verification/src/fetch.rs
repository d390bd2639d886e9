//! Order-preserving assembly of a concurrent batch fetch.
//!
//! The transport issues one independent request per identifier, all in
//! flight at once, and hands back one outcome per request tagged with the
//! request's position in the input order. [`assemble`] folds those
//! outcomes — in whatever order they arrived — into a result sequence that
//! is index-aligned with the input: element `i` of a successful result is
//! the item that request `i` fetched. If any single request failed, the
//! whole batch fails with that request's error; per-item failures are never
//! dropped or defaulted.

use vstd::prelude::*;

use crate::errors::AppError;
use crate::items::HNPost;

verus! {

/// How many leading ids of the feed response are fetched.
pub const TOP_WINDOW: usize = 100;

/// The ids the initial load fetches: the first [`TOP_WINDOW`] ids of the
/// feed response, or all of them when the response is shorter.
pub fn top_window(ids: Vec<u64>) -> (r: Vec<u64>)
    ensures
        r@ == if ids@.len() <= TOP_WINDOW {
            ids@
        } else {
            ids@.subrange(0, TOP_WINDOW as int)
        },
{
    let mut ids = ids;
    let ghost orig = ids@;
    ids.truncate(TOP_WINDOW);
    proof {
        if orig.len() <= TOP_WINDOW {
            assert(ids@ == orig);
        }
    }
    ids
}

/// Some arrival carries position `i`.
pub open spec fn covers<T>(arr: Seq<(usize, Result<T, AppError>)>, i: int) -> bool {
    exists|j: int| 0 <= j < arr.len() && (#[trigger] arr[j]).0 == i
}

/// The arrivals are exactly one outcome per request of a batch of size
/// `k`: one arrival for each position, every position in range. This is
/// what the join barrier of the transport guarantees — the batch call does
/// not return before every launched request has resolved.
pub open spec fn arrivals_complete<T>(arr: Seq<(usize, Result<T, AppError>)>, k: nat) -> bool {
    &&& arr.len() == k
    &&& forall|j: int| 0 <= j < arr.len() ==> (#[trigger] arr[j]).0 < k
    &&& forall|i: int| 0 <= i < k ==> covers(arr, i)
}

/// Every arrival fetched its item successfully.
pub open spec fn all_ok<T>(arr: Seq<(usize, Result<T, AppError>)>) -> bool {
    forall|j: int| 0 <= j < arr.len() ==> (#[trigger] arr[j]).1 is Ok
}

/// Some arrival carries position `i` and the item `t`.
pub open spec fn slot_ok<T>(arr: Seq<(usize, Result<T, AppError>)>, i: int, t: T) -> bool {
    exists|j: int|
        0 <= j < arr.len() && (#[trigger] arr[j]).0 == i && arr[j].1 == Ok::<T, AppError>(t)
}

/// `out` is index-aligned with the arrivals of a batch of size `k`:
/// element `i` is the item that the request at position `i` fetched.
pub open spec fn result_matches<T>(
    arr: Seq<(usize, Result<T, AppError>)>,
    out: Seq<T>,
    k: nat,
) -> bool {
    &&& out.len() == k
    &&& forall|i: int| 0 <= i < k ==> slot_ok(arr, i, #[trigger] out[i])
}

/// Folds the per-request outcomes of a batch of size `k` into one result,
/// index-aligned with the input order, whatever order the outcomes arrived
/// in. Succeeds exactly when every request succeeded; otherwise fails with
/// the error of some failed request.
#[verifier::loop_isolation(false)]
pub fn assemble<T>(k: usize, arrivals: Vec<(usize, Result<T, AppError>)>) -> (r: Result<
    Vec<T>,
    AppError,
>)
    requires
        arrivals_complete(arrivals@, k as nat),
    ensures
        r is Ok <==> all_ok(arrivals@),
        match r {
            Ok(out) => result_matches(arrivals@, out@, k as nat),
            Err(e) => exists|j: int|
                0 <= j < arrivals@.len() && (#[trigger] arrivals@[j]).1 == Err::<T, AppError>(e),
        },
{
    let ghost arr = arrivals@;
    let mut slots: Vec<Option<T>> = Vec::new();
    let mut i: usize = 0;
    while i < k
        invariant
            i <= k,
            slots@.len() == i,
            forall|i2: int| 0 <= i2 < i ==> (#[trigger] slots@[i2]) is None,
        decreases k - i,
    {
        slots.push(None);
        i = i + 1;
    }
    let mut rest = arrivals;
    proof {
        assert(arr.take(arr.len() as int) =~= arr);
    }
    while rest.len() > 0
        invariant
            arrivals_complete(arr, k as nat),
            rest@.len() <= arr.len(),
            rest@ == arr.take(rest@.len() as int),
            slots@.len() == k,
            forall|i2: int|
                0 <= i2 < k ==> ((#[trigger] slots@[i2]) matches Some(t) ==> slot_ok(
                    arr,
                    i2,
                    t,
                )),
            forall|i2: int|
                0 <= i2 < k && (exists|j: int|
                    rest@.len() <= j < arr.len() && (#[trigger] arr[j]).0 == i2) ==> (
                #[trigger] slots@[i2]) is Some,
            forall|j: int| rest@.len() <= j < arr.len() ==> (#[trigger] arr[j]).1 is Ok,
        decreases rest.len(),
    {
        let ghost n = rest@.len();
        let arrival = rest.pop().unwrap();
        proof {
            assert(arr.take(n as int)[n - 1] == arr[n - 1]);
        }
        let (idx, res) = arrival;
        match res {
            Ok(t) => {
                assert(idx < k);
                slots[idx] = Some(t);
                proof {
                    assert(rest@ == arr.take(rest@.len() as int));
                    assert forall|i2: int|
                        0 <= i2 < k && (exists|j: int|
                            rest@.len() <= j < arr.len() && (#[trigger] arr[j]).0
                                == i2) implies (#[trigger] slots@[i2]) is Some by {
                        let j = choose|j: int|
                            rest@.len() <= j < arr.len() && (#[trigger] arr[j]).0 == i2;
                        if j < n {
                            assert(arr[j].0 == idx);
                        }
                    }
                }
            },
            Err(e) => {
                proof {
                    assert(arr[n - 1].1 == Err::<T, AppError>(e));
                }
                return Err(e);
            },
        }
    }
    proof {
        assert forall|i2: int| 0 <= i2 < k implies (#[trigger] slots@[i2]) is Some by {
            assert(covers(arr, i2));
        }
        assert(all_ok(arr));
    }
    let ghost full = slots@;
    let mut out: Vec<T> = Vec::new();
    let mut i: usize = 0;
    while i < k
        invariant
            i <= k,
            out@.len() == i,
            slots@ == full.skip(i as int),
            full.len() == k,
            forall|i2: int| 0 <= i2 < k ==> (#[trigger] full[i2]) is Some,
            forall|i2: int|
                0 <= i2 < k ==> ((#[trigger] full[i2]) matches Some(t) ==> slot_ok(arr, i2, t)),
            forall|i2: int| 0 <= i2 < i ==> slot_ok(arr, i2, #[trigger] out@[i2]),
        decreases k - i,
    {
        let slot = slots.remove(0);
        proof {
            assert(full.skip(i as int)[0] == full[i as int]);
            assert(full.skip(i as int).remove(0) == full.skip(i + 1)) by {
                assert(full.skip(i as int).remove(0) =~= full.skip(i + 1));
            }
        }
        match slot {
            Some(t) => {
                out.push(t);
            },
            None => {},
        }
        i = i + 1;
    }
    Ok(out)
}

/// Law: when the remote API answers each request for identifier
/// `ids[position]` with an item carrying that identifier, an assembled
/// batch holds at position `i` the item with identifier `ids[i]`, for
/// every completion order of the requests.
pub proof fn lemma_assembled_ids(
    ids: Seq<u64>,
    arr: Seq<(usize, Result<HNPost, AppError>)>,
    out: Seq<HNPost>,
)
    requires
        arrivals_complete(arr, ids.len()),
        result_matches(arr, out, ids.len()),
        forall|j: int|
            0 <= j < arr.len() ==> ((#[trigger] arr[j]).1 matches Ok(p) ==> p.id == ids[arr[j].0
                as int]),
    ensures
        forall|i: int| 0 <= i < ids.len() ==> (#[trigger] out[i]).id == ids[i],
{
    assert forall|i: int| 0 <= i < ids.len() implies (#[trigger] out[i]).id == ids[i] by {
        assert(slot_ok(arr, i, out[i]));
        let j = choose|j: int|
            0 <= j < arr.len() && (#[trigger] arr[j]).0 == i && arr[j].1 == Ok::<
                HNPost,
                AppError,
            >(out[i]);
        assert(arr[j].1 matches Ok(p) && p.id == ids[arr[j].0 as int]);
    }
}

} // verus!
