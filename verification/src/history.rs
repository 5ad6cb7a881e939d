//! The marked descriptors as a function of the opens and closes so far.

use vstd::prelude::*;
use crate::scope::in_scope_spec;
use crate::shim::{after_close, after_open};

verus! {

/// A forwarded call that may change which descriptors are marked.
pub enum Call {
    /// An open on `path` that returned `ret`.
    Open { path: Seq<char>, ret: i32 },
    /// A close of `fd` that returned `ret`.
    Close { fd: i32, ret: i32 },
}

/// The marked descriptors after one more call.
pub open spec fn step(marked: Set<i32>, call: Call) -> Set<i32> {
    match call {
        Call::Open { path, ret } => after_open(marked, path, ret),
        Call::Close { fd, ret } => after_close(marked, fd, ret),
    }
}

/// The marked descriptors after a sequence of calls, starting with none.
pub open spec fn replay(calls: Seq<Call>) -> Set<i32>
    decreases calls.len(),
{
    if calls.len() == 0 {
        Set::empty()
    } else {
        step(replay(calls.drop_last()), calls.last())
    }
}

/// The call is a successful open in scope that returned `fd`.
pub open spec fn opens(call: Call, fd: i32) -> bool {
    match call {
        Call::Open { path, ret } => in_scope_spec(path) && ret >= 0 && ret == fd,
        Call::Close { .. } => false,
    }
}

/// The call is a successful close of `fd`.
pub open spec fn closes(call: Call, fd: i32) -> bool {
    match call {
        Call::Open { .. } => false,
        Call::Close { fd: closed, ret } => ret == 0 && closed == fd,
    }
}

/// Call number `at` opened `fd`, and no later call closed it.
pub open spec fn open_since(calls: Seq<Call>, at: int, fd: i32) -> bool {
    &&& 0 <= at < calls.len()
    &&& opens(calls[at], fd)
    &&& forall|later: int| at < later < calls.len() ==> !closes(#[trigger] calls[later], fd)
}

/// A descriptor is marked exactly when a successful open in scope returned
/// it and no successful close of it followed.
pub proof fn lemma_marked_iff_open_and_not_closed(calls: Seq<Call>, fd: i32)
    ensures
        replay(calls).contains(fd) <==> exists|at: int| #[trigger] open_since(calls, at, fd),
    decreases calls.len(),
{
    if calls.len() == 0 {
        assert forall|at: int| !#[trigger] open_since(calls, at, fd) by {}
    } else {
        let before = calls.drop_last();
        let last = calls.last();
        let end = calls.len() - 1;
        lemma_marked_iff_open_and_not_closed(before, fd);
        if opens(last, fd) {
            assert(open_since(calls, end, fd));
        } else if closes(last, fd) {
            assert forall|at: int| !#[trigger] open_since(calls, at, fd) by {
                if 0 <= at < end {
                    assert(closes(calls[end], fd));
                }
            }
        } else {
            assert(replay(calls).contains(fd) == replay(before).contains(fd));
            if exists|at: int| #[trigger] open_since(before, at, fd) {
                let at = choose|at: int| #[trigger] open_since(before, at, fd);
                assert(calls[at] == before[at]);
                assert forall|later: int| at < later < calls.len() implies !closes(
                    #[trigger] calls[later],
                    fd,
                ) by {
                    if later < end {
                        assert(calls[later] == before[later]);
                    }
                }
                assert(open_since(calls, at, fd));
            }
            if exists|at: int| #[trigger] open_since(calls, at, fd) {
                let at = choose|at: int| #[trigger] open_since(calls, at, fd);
                assert(at < end);
                assert(calls[at] == before[at]);
                assert forall|later: int| at < later < before.len() implies !closes(
                    #[trigger] before[later],
                    fd,
                ) by {
                    assert(calls[later] == before[later]);
                }
                assert(open_since(before, at, fd));
            }
        }
    }
}

/// A close that is not recorded was of a descriptor that no open in scope
/// left marked: no earlier call opened it without a later close.
pub proof fn lemma_unmarked_close_leaves_no_record(calls: Seq<Call>, fd: i32, ret: i32)
    requires
        forall|at: int| !#[trigger] open_since(calls, at, fd),
    ensures
        !crate::shim::close_recorded(replay(calls), fd, ret),
{
    lemma_marked_iff_open_and_not_closed(calls, fd);
}

} // verus!
