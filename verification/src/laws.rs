//! The laws of the watch, proved over the abstract transitions of
//! `WatchModel`. Each law's hypotheses are the situation it speaks of and
//! well-formedness of the state; its conclusion is stated with the same
//! spec functions that the executable operations' contracts use.

use vstd::prelude::*;

use crate::model::{somes, WatchModel};
use crate::version::next_version;

verus! {

/// The version tag after `n` publishes starting from `v`.
pub open spec fn advance(v: u32, n: nat) -> u32
    decreases n,
{
    if n == 0 {
        v
    } else {
        next_version(advance(v, (n - 1) as nat))
    }
}

/// Advancing a tag `n` steps adds `n`, wrapping once past the top.
pub proof fn lemma_advance_value(v: u32, n: nat)
    requires
        n <= 0x1_0000_0000,
    ensures
        advance(v, n) == if v + n < 0x1_0000_0000 {
            v + n
        } else {
            v + n - 0x1_0000_0000
        },
    decreases n,
{
    if n > 0 {
        lemma_advance_value(v, (n - 1) as nat);
    }
}

/// Fewer than a full cycle of publishes never brings the tag back to
/// where it started, so a caught-up observer is stale after any of them.
pub proof fn lemma_advance_ne(v: u32, n: nat)
    requires
        1 <= n < 0x1_0000_0000,
    ensures
        advance(v, n) != v,
{
    lemma_advance_value(v, n);
}

/// The state after publishing each element of `vs` in order, with no
/// other operation in between.
pub open spec fn after_send_all<T, W>(w: WatchModel<T, W>, vs: Seq<T>) -> WatchModel<T, W>
    decreases vs.len(),
{
    if vs.len() == 0 {
        w
    } else {
        after_send_all(w, vs.drop_last()).after_send(vs.last())
    }
}

/// What a run of back-to-back publishes leaves behind: the last payload,
/// owed to every observer registered at its publish; a tag advanced once
/// per publish; the observer count untouched.
pub proof fn lemma_after_send_all<T, W>(w: WatchModel<T, W>, vs: Seq<T>)
    ensures
        after_send_all(w, vs).receiver_count == w.receiver_count,
        after_send_all(w, vs).capacity == w.capacity,
        after_send_all(w, vs).version == advance(w.version, vs.len()),
        vs.len() >= 1 ==> after_send_all(w, vs).value == Some((vs.last(), w.receiver_count)),
        w.wf() ==> after_send_all(w, vs).wf(),
    decreases vs.len(),
{
    if vs.len() >= 1 {
        lemma_after_send_all(w, vs.drop_last());
    }
}

/// Last-value-wins: after any run of publishes `v1, …, vn` with no wait
/// in between, an observer that was caught up before the run (so in
/// particular one created before `v1` that has seen everything earlier)
/// finds an unseen value on its next wait, and that value is `vn` —
/// never an earlier one.
pub proof fn last_value_wins<T, W>(w: WatchModel<T, W>, vs: Seq<T>, seen: u32)
    requires
        w.wf(),
        1 <= vs.len() < 0x1_0000_0000,
        seen == w.version,
    ensures
        after_send_all(w, vs).can_consume(seen),
        after_send_all(w, vs).payload() == vs.last(),
{
    lemma_after_send_all(w, vs);
    lemma_advance_ne(w.version, vs.len());
}

/// No-replay: an observer that has just consumed the stored value — its
/// last-seen tag now equals the watch's — finds nothing to consume until
/// the next publish.
pub proof fn no_replay<T, W>(w: WatchModel<T, W>, seen: u32)
    requires
        w.can_consume(seen),
    ensures
        !w.after_consume().can_consume(w.version),
{
}

/// Per-observer independence: with two (or more) observers registered
/// and both caught up, a publish of `v1` followed by a wait of each, then
/// a publish of `v2` followed by a wait of each, delivers `v1` then `v2`
/// to both — neither observer's consumption robs the other.
pub proof fn observers_independent<T, W>(w: WatchModel<T, W>, v1: T, v2: T)
    requires
        w.wf(),
        w.receiver_count >= 2,
    ensures
        ({
            let w1 = w.after_send(v1);  // publish v1; both observers last saw w.version
            let w2 = w1.after_consume();  // first observer consumes; now at w1.version
            let w3 = w2.after_consume();  // second observer consumes; now at w1.version
            let w4 = w3.after_send(v2);  // publish v2
            let w5 = w4.after_consume();  // first observer consumes again
            &&& w1.can_consume(w.version) && w1.payload() == v1
            &&& w2.can_consume(w.version) && w2.payload() == v1
            &&& w4.can_consume(w1.version) && w4.payload() == v2
            &&& w5.can_consume(w1.version) && w5.payload() == v2
        }),
{
}

/// Creation-time horizon: an observer created after `v1` was published
/// has nothing to consume until the next publish — it never receives
/// `v1` — and after `v2` is published it receives `v2`.
pub proof fn creation_horizon<T, W>(w: WatchModel<T, W>, v1: T, v2: T)
    requires
        w.wf(),
        w.receiver_count < w.capacity,
    ensures
        ({
            let w1 = w.after_send(v1);  // v1 published
            let w2 = w1.after_receiver();  // observer created; it last saw w1.version
            let w3 = w2.after_send(v2);  // v2 published
            &&& !w2.can_consume(w1.version)
            &&& w3.can_consume(w1.version) && w3.payload() == v2
        }),
{
}

/// A slot's occupant is among the handles that a publish hands back.
pub proof fn lemma_somes_contains<W>(s: Seq<Option<W>>, i: int)
    requires
        0 <= i < s.len(),
        s[i] is Some,
    ensures
        somes(s).contains(s[i].unwrap()),
    decreases s.len(),
{
    if i == s.len() - 1 {
        assert(somes(s).last() == s[i].unwrap());
    } else {
        lemma_somes_contains(s.drop_last(), i);
        let j = choose|j: int|
            0 <= j < somes(s.drop_last()).len() && somes(s.drop_last())[j] == s[i].unwrap();
        assert(somes(s)[j] == s[i].unwrap());
    }
}

/// Wakeup delivery: a publish wakes every suspended observer, and a
/// woken observer's retried wait completes with the value of that very
/// publish. Concretely: if an observer that last saw the current tag is
/// suspended (its wake handle occupies its slot), then publishing `v`
/// hands its wake handle back for waking, and the observer then finds
/// `v` unseen and consumable.
pub proof fn wakeup_delivered<T, W>(w: WatchModel<T, W>, id: nat, seen: u32, v: T)
    requires
        w.wf(),
        id < w.wakers.len(),
        w.wakers[id as int] is Some,
        seen == w.version,
    ensures
        w.woken().contains(w.wakers[id as int].unwrap()),
        w.after_send(v).can_consume(seen),
        w.after_send(v).payload() == v,
{
    lemma_somes_contains(w.wakers, id as int);
}

} // verus!
