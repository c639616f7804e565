//! The attach counter of a build root under any sequence of sessions.
use vstd::prelude::*;

use crate::common::BuildMetadata;

verus! {

/// One change of the attach counter: a process begins or ends a session.
#[derive(Debug, Clone, Copy, PartialEq, Eq, Structural)]
pub enum SessionOp {
    Attach,
    Detach,
}

/// The counter after one operation: up by one, or down by one but never below zero.
pub open spec fn count_step(c: nat, op: SessionOp) -> nat {
    match op {
        SessionOp::Attach => c + 1,
        SessionOp::Detach => if c == 0 {
            0
        } else {
            (c - 1) as nat
        },
    }
}

/// The counter after `ops`, applied in order to the count `start`.
pub open spec fn count_after(start: nat, ops: Seq<SessionOp>) -> nat
    decreases ops.len(),
{
    if ops.len() == 0 {
        start
    } else {
        count_step(count_after(start, ops.drop_last()), ops.last())
    }
}

/// How many operations of `ops` attach.
pub open spec fn attaches(ops: Seq<SessionOp>) -> nat
    decreases ops.len(),
{
    if ops.len() == 0 {
        0
    } else {
        attaches(ops.drop_last()) + if ops.last() == SessionOp::Attach {
            1nat
        } else {
            0nat
        }
    }
}

/// How many operations of `ops` detach.
pub open spec fn detaches(ops: Seq<SessionOp>) -> nat
    decreases ops.len(),
{
    if ops.len() == 0 {
        0
    } else {
        detaches(ops.drop_last()) + if ops.last() == SessionOp::Detach {
            1nat
        } else {
            0nat
        }
    }
}

/// Attaches minus detaches.
pub open spec fn net_change(ops: Seq<SessionOp>) -> int {
    attaches(ops) - detaches(ops)
}

/// The lowest net change reached by any prefix of `ops`, the empty one included
/// (so never above zero).
pub open spec fn lowest_net(ops: Seq<SessionOp>) -> int
    decreases ops.len(),
{
    if ops.len() == 0 {
        0
    } else {
        let before = lowest_net(ops.drop_last());
        if net_change(ops) < before {
            net_change(ops)
        } else {
            before
        }
    }
}

/// Applies `ops` in order to the document's attach counter.
pub fn apply_session_ops(meta: &mut BuildMetadata, ops: &Vec<SessionOp>)
    requires
        old(meta).num_processes_attached + ops@.len() <= u64::MAX,
    ensures
        final(meta).num_processes_attached == count_after(
            old(meta).num_processes_attached as nat,
            ops@,
        ),
        final(meta).driver == old(meta).driver,
        final(meta).config == old(meta).config,
        final(meta).driver_metadata == old(meta).driver_metadata,
{
    let ghost start = meta.num_processes_attached as nat;
    let mut i: usize = 0;
    while i < ops.len()
        invariant
            i <= ops@.len(),
            meta.num_processes_attached == count_after(start, ops@.subrange(0, i as int)),
            meta.num_processes_attached <= start + i,
            start + ops@.len() <= u64::MAX,
            meta.driver == old(meta).driver,
            meta.config == old(meta).config,
            meta.driver_metadata == old(meta).driver_metadata,
        decreases ops@.len() - i,
    {
        assert(ops@.subrange(0, i + 1).drop_last() =~= ops@.subrange(0, i as int));
        match ops[i] {
            SessionOp::Attach => meta.attach(),
            SessionOp::Detach => meta.detach(),
        }
        i += 1;
    }
    assert(ops@.subrange(0, ops@.len() as int) =~= ops@);
}

/// Starting from a fresh document (count zero), the attach counter after any
/// sequence of attaches and detaches is the net number of attaches minus
/// detaches, clamped at zero at every step: that is, the net change minus the
/// deepest deficit any prefix reached. It is therefore never negative.
pub proof fn lemma_counter_is_clamped_net(ops: Seq<SessionOp>)
    ensures
        count_after(0, ops) == net_change(ops) - lowest_net(ops),
        lowest_net(ops) <= 0,
        lowest_net(ops) <= net_change(ops),
    decreases ops.len(),
{
    if ops.len() > 0 {
        lemma_counter_is_clamped_net(ops.drop_last());
    }
}

/// When every detach is preceded by a matching attach (no prefix has more
/// detaches than attaches), as when each process attaches before it detaches and
/// the updates are applied one at a time under the lock, no update is lost: the
/// counter equals attaches minus detaches exactly. With as many detaches as
/// attaches it is back at zero.
pub proof fn lemma_serialized_sessions_lose_no_update(ops: Seq<SessionOp>)
    requires
        forall|i: int| 0 <= i <= ops.len() ==> #[trigger] net_change(ops.subrange(0, i)) >= 0,
    ensures
        count_after(0, ops) == attaches(ops) - detaches(ops),
        attaches(ops) == detaches(ops) ==> count_after(0, ops) == 0,
{
    lemma_lowest_net_zero(ops);
    lemma_counter_is_clamped_net(ops);
}

proof fn lemma_lowest_net_zero(ops: Seq<SessionOp>)
    requires
        forall|i: int| 0 <= i <= ops.len() ==> #[trigger] net_change(ops.subrange(0, i)) >= 0,
    ensures
        lowest_net(ops) == 0,
    decreases ops.len(),
{
    if ops.len() > 0 {
        let front = ops.drop_last();
        assert forall|i: int| 0 <= i <= front.len() implies #[trigger] net_change(
            front.subrange(0, i),
        ) >= 0 by {
            assert(front.subrange(0, i) =~= ops.subrange(0, i));
        }
        lemma_lowest_net_zero(front);
        assert(ops.subrange(0, ops.len() as int) =~= ops);
    }
}

} // verus!
