//! The way into the engine: the permission guard, the check that the action
//! built is the action asked for, and the direct front-end, which takes a
//! request that is structured already.

use vstd::prelude::*;
use crate::action::Action;
use crate::catalog::name_of;
use crate::engine::{
    answer_view, execute, executed, notice_of, notice_rows, OutcomeView, RPCHandle, RPCOutcome,
};
use crate::error::RpcError;
use crate::store::{Store, StoreView};
use crate::text::{chars_of, same_chars};

verus! {

/// The caller is on the staff roster.
pub open spec fn is_staff(staff: Seq<Seq<char>>, caller: Seq<char>) -> bool {
    exists|i: int| 0 <= i < staff.len() && #[trigger] staff[i] == caller
}

/// The permission guard: whether the caller may run administrative actions
/// at all. It reads the roster and changes nothing.
pub fn authorize(caller: &str, store: &Store) -> (out: bool)
    ensures
        out == is_staff(store@.staff, caller@),
{
    let who = chars_of(caller);
    let mut i: usize = 0;
    while i < store.staff.len()
        invariant
            i <= store.staff.len(),
            who@ == caller@,
            forall|j: int| 0 <= j < i ==> #[trigger] store@.staff[j] != caller@,
        decreases store.staff.len() - i,
    {
        let member = chars_of(store.staff[i].as_str());
        if same_chars(&member, &who) {
            assert(store@.staff[i as int] == caller@);
            return true;
        }
        i += 1;
    }
    false
}

/// What becomes of an action that is handed on under the name that was
/// asked for: an action of another name is a fault and is not run.
pub open spec fn dispatched(requested: Seq<char>, a: Action, caller: Seq<char>, s: StoreView) -> (
    StoreView,
    Result<OutcomeView, RpcError>,
) {
    if name_of(a.kind_of()) != requested {
        (s, Err(RpcError::ConsistencyFault))
    } else {
        executed(a, caller, s)
    }
}

/// Hands a validated action to the engine, after holding its name against
/// the name that the caller asked for. Where the two differ nothing is run
/// and nothing is written.
pub fn dispatch(requested: &str, action: &Action, handle: &mut RPCHandle) -> (out: Result<
    RPCOutcome,
    RpcError,
>)
    ensures
        final(handle).store@ == dispatched(
            requested@,
            *action,
            old(handle).user_id@,
            old(handle).store@,
        ).0,
        answer_view(out) == dispatched(
            requested@,
            *action,
            old(handle).user_id@,
            old(handle).store@,
        ).1,
        final(handle).user_id@ == old(handle).user_id@,
        notice_rows(final(handle).outbox@) == if out is Ok {
            notice_rows(old(handle).outbox@).push(notice_of(*action, old(handle).user_id@))
        } else {
            notice_rows(old(handle).outbox@)
        },
{
    let wanted = chars_of(requested);
    let built = chars_of(action.name());
    if !same_chars(&built, &wanted) {
        return Err(RpcError::ConsistencyFault);
    }
    execute(action, handle)
}

/// An action that carries another name than the one asked for is never
/// run: the answer is a consistency fault and the store is as it was.
pub proof fn lemma_wrong_name_is_a_fault(
    requested: Seq<char>,
    a: Action,
    caller: Seq<char>,
    s: StoreView,
)
    requires
        name_of(a.kind_of()) != requested,
    ensures
        dispatched(requested, a, caller, s) == (
            s,
            Err::<OutcomeView, RpcError>(RpcError::ConsistencyFault),
        ),
{
}

} // verus!
