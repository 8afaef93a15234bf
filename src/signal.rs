use vstd::prelude::*;
use core::sync::atomic::{AtomicBool, Ordering};

verus! {

/// Marks an event as pending; the interrupt side's only action.
pub fn raise(flag: &AtomicBool) {
    flag.store(true, Ordering::Release);
}

/// Consumes the pending event, if there is one: an atomic test-and-clear,
/// so that of two takes only one can see a given raise.
pub fn take(flag: &AtomicBool) -> bool {
    flag.compare_exchange(true, false, Ordering::Acquire, Ordering::Relaxed).is_ok()
}

/// One atomic operation on the slot, in the order in which they took effect.
#[derive(Clone, Copy, PartialEq, Eq, Structural, Debug)]
pub enum SignalOp {
    Raise,
    Take,
}

/// How many of the takes in `ops` see an event, the slot starting out
/// `pending`.
pub open spec fn observed(ops: Seq<SignalOp>, pending: bool) -> nat
    decreases ops.len(),
{
    if ops.len() == 0 {
        0
    } else {
        match ops[0] {
            SignalOp::Raise => observed(ops.drop_first(), true),
            SignalOp::Take => (if pending {
                1nat
            } else {
                0nat
            }) + observed(ops.drop_first(), false),
        }
    }
}

/// Whether the slot is pending after `ops`, starting out `pending`.
pub open spec fn pending_after(ops: Seq<SignalOp>, pending: bool) -> bool
    decreases ops.len(),
{
    if ops.len() == 0 {
        pending
    } else {
        pending_after(ops.drop_first(), ops[0] is Raise)
    }
}

proof fn lemma_takes_only(ops: Seq<SignalOp>, pending: bool)
    requires
        forall|j: int| 0 <= j < ops.len() ==> ops[j] is Take,
    ensures
        observed(ops, pending) == (if pending && ops.len() > 0 {
            1nat
        } else {
            0nat
        }),
        pending_after(ops, pending) == (pending && ops.len() == 0),
    decreases ops.len(),
{
    if ops.len() > 0 {
        assert(ops[0] is Take);
        lemma_takes_only(ops.drop_first(), false);
    }
}

/// In the `observed` model of the slot, where raises and takes take effect
/// one at a time in a single order: a single event raised into an empty slot,
/// among any number of takes, is seen by exactly one take when one follows
/// it, and by none otherwise. It is never seen twice, and never lost; unseen,
/// it is still pending. This is a statement about the model; `raise` and
/// `take` carry no contract that ties them to it.
pub proof fn lemma_single_event_seen_once(ops: Seq<SignalOp>, i: int)
    requires
        0 <= i < ops.len(),
        ops[i] is Raise,
        forall|j: int| 0 <= j < ops.len() && j != i ==> ops[j] is Take,
    ensures
        observed(ops, false) == (if i + 1 < ops.len() {
            1nat
        } else {
            0nat
        }),
        pending_after(ops, false) == (i + 1 == ops.len()),
    decreases i,
{
    if i == 0 {
        let rest = ops.drop_first();
        assert forall|j: int| 0 <= j < rest.len() implies rest[j] is Take by {
            assert(rest[j] == ops[j + 1]);
        }
        lemma_takes_only(rest, true);
    } else {
        let rest = ops.drop_first();
        assert(ops[0] is Take);
        assert forall|j: int| 0 <= j < rest.len() && j != i - 1 implies rest[j] is Take by {
            assert(rest[j] == ops[j + 1]);
        }
        lemma_single_event_seen_once(rest, i - 1);
    }
}

} // verus!
