//! The watch itself: shared state, publisher and observer handles.
//!
//! Exclusive access to the shared state is expressed by `&mut`: every
//! operation is one critical section that runs to completion. Suspension
//! is explicit — a `wait` that finds nothing new registers the caller's
//! wake handle and reports `Pending`; a later `send` returns the set of
//! registered handles so the surrounding scheduler can wake them.

use vstd::pervasive::cloned;
use vstd::pervasive::VecAdditionalExecFns;
use vstd::prelude::*;

use crate::model::{somes, WatchModel};
use crate::version::{next_version, Version};

verus! {

/// A faithful clone: every result `T::clone` may return equals its
/// argument. Observers each receive an independent copy of the published
/// payload, so delivery is value-exact only for such payload types.
pub open spec fn faithful_clone<T: Clone>() -> bool {
    forall|x: T, y: T| #[trigger] call_ensures(T::clone, (&x,), y) ==> y == x
}

/// The shared state of the broadcast primitive: the latest published
/// value (owed to however many observers have yet to consume it), the
/// current version tag, one waker slot per unit of observer capacity,
/// and the number of observer handles issued so far. `R` is the maximum
/// number of observers; `W` is the scheduler's wake-handle type.
pub struct Watch<T, W, const R: usize> {
    value: Option<(T, usize)>,
    version: Version,
    wakers: Vec<Option<W>>,
    receiver_count: usize,
}

impl<T, W, const R: usize> View for Watch<T, W, R> {
    type V = WatchModel<T, W>;

    closed spec fn view(&self) -> WatchModel<T, W> {
        WatchModel {
            value: match self.value {
                Some((p, rem)) => Some((p, rem as nat)),
                None => None,
            },
            version: self.version.tag(),
            wakers: self.wakers@,
            receiver_count: self.receiver_count as nat,
            capacity: R as nat,
        }
    }
}

/// A publisher handle. It carries no state of its own; any number may
/// coexist, and each publishes through exclusive access to the watch.
pub struct Sender;

/// An observer handle: the index of its waker slot and the version tag
/// it saw last. It never observes values published before its creation,
/// and sees each later value at most once.
pub struct Receiver {
    id: usize,
    version: Version,
}

impl Receiver {
    /// The index of this observer's waker slot, for use in specifications.
    pub closed spec fn slot(self) -> nat {
        self.id as nat
    }

    /// The version tag this observer saw last, for use in specifications.
    pub closed spec fn seen(self) -> u32 {
        self.version.tag()
    }
}

/// The outcome of one `wait` step: either the next unseen value, or
/// `Pending`, in which case the caller's wake handle was registered and
/// the step must be retried after a later publish wakes it.
#[derive(Debug, PartialEq)]
pub enum WaitPoll<T> {
    Ready(T),
    Pending,
}

impl<T: Clone, W, const R: usize> Watch<T, W, R> {
    /// An empty watch: no value, version zero, no wakers, no observers.
    pub fn new() -> (r: Watch<T, W, R>)
        ensures
            r@ == WatchModel::<T, W>::init(R as nat),
            r@.wf(),
    {
        let mut wakers: Vec<Option<W>> = Vec::new();
        let mut i: usize = 0;
        while i < R
            invariant
                i <= R,
                wakers@.len() == i,
                forall|j: int| 0 <= j < i ==> wakers@[j] is None,
            decreases R - i,
        {
            wakers.push(None);
            i = i + 1;
        }
        let r = Watch { value: None, version: Version::new(), wakers, receiver_count: 0 };
        proof {
            assert(r@.wakers =~= Seq::new(R as nat, |i: int| None::<W>));
            assert(r@ =~= WatchModel::<T, W>::init(R as nat));
        }
        r
    }

    /// A publisher handle for this watch.
    pub fn sender(&self) -> (r: Sender) {
        Sender
    }

    /// A new observer handle. Its slot is the next free one, and its
    /// last-seen tag is the current version, so it will only observe
    /// values published at or after its creation.
    ///
    /// Issuing more observers than the capacity `R` is a fatal sizing
    /// mistake, excluded here by precondition; `try_receiver` reports it
    /// to callers that cannot establish the bound.
    pub fn receiver(&mut self) -> (r: Receiver)
        requires
            old(self)@.wf(),
            old(self)@.receiver_count < R,
        ensures
            final(self)@ == old(self)@.after_receiver(),
            final(self)@.wf(),
            r.slot() == old(self)@.receiver_count,
            r.seen() == old(self)@.version,
    {
        let id: usize = self.receiver_count;
        self.receiver_count = self.receiver_count + 1;
        proof {
            assert(final(self)@ =~= old(self)@.after_receiver());
        }
        Receiver { id, version: self.version }
    }

    /// Like `receiver`, but reports the capacity overflow instead of
    /// presupposing its absence: `None` exactly when all `R` observer
    /// slots are already taken, in which case the watch is unchanged.
    pub fn try_receiver(&mut self) -> (r: Option<Receiver>)
        requires
            old(self)@.wf(),
        ensures
            final(self)@.wf(),
            old(self)@.receiver_count < R ==> {
                &&& final(self)@ == old(self)@.after_receiver()
                &&& (r matches Some(rcv) && rcv.slot() == old(self)@.receiver_count && rcv.seen()
                    == old(self)@.version)
            },
            old(self)@.receiver_count >= R ==> r is None && *final(self) == *old(self),
    {
        if self.receiver_count < R {
            Some(self.receiver())
        } else {
            None
        }
    }
}

impl Sender {
    /// Publish a value: overwrite the slot with `value`, owed once to
    /// every currently registered observer (last-value-wins — an
    /// unconsumed previous value is discarded), advance the version, and
    /// hand back every registered wake handle, emptying the waker slots.
    /// Publishing never fails and never suspends; the caller wakes the
    /// returned handles.
    pub fn send<T, W, const R: usize>(&self, watch: &mut Watch<T, W, R>, value: T) -> (woken: Vec<
        W,
    >)
        requires
            old(watch)@.wf(),
        ensures
            final(watch)@ == old(watch)@.after_send(value),
            final(watch)@.wf(),
            woken@ == old(watch)@.woken(),
    {
        watch.value = Some((value, watch.receiver_count));
        watch.version.update();
        let ghost ws = watch.wakers@;
        let mut woken: Vec<W> = Vec::new();
        let mut i: usize = 0;
        while i < watch.wakers.len()
            invariant
                i <= watch.wakers@.len(),
                watch.wakers@.len() == ws.len(),
                watch@.value == Some((value, old(watch)@.receiver_count)),
                watch@.version == next_version(old(watch)@.version),
                watch@.receiver_count == old(watch)@.receiver_count,
                forall|j: int| 0 <= j < i ==> watch.wakers@[j] is None,
                forall|j: int| i <= j < ws.len() ==> watch.wakers@[j] == ws[j],
                woken@ == somes(ws.take(i as int)),
            decreases watch.wakers@.len() - i,
        {
            let mut slot: Option<W> = None;
            watch.wakers.set_and_swap(i, &mut slot);
            proof {
                assert(ws.take(i as int + 1).drop_last() =~= ws.take(i as int));
                assert(ws.take(i as int + 1).last() == ws[i as int]);
            }
            match slot {
                Some(w) => woken.push(w),
                None => (),
            }
            i = i + 1;
        }
        proof {
            assert(ws.take(ws.len() as int) =~= ws);
            assert(watch.wakers@ =~= Seq::new(ws.len(), |i: int| None::<W>));
            assert(watch@ =~= old(watch)@.after_send(value));
        }
        woken
    }
}

impl Receiver {
    /// One step of waiting for the next unseen value.
    ///
    /// If the stored version differs from this observer's last-seen tag
    /// and a value is present, the observer consumes it: its tag catches
    /// up, the value's pending-consumption count drops by one (the slot
    /// empties at zero, and otherwise keeps a copy of the payload for the
    /// observers still owed it), and the payload itself is returned.
    /// Otherwise `waker` is parked in this observer's slot and the step
    /// reports `Pending`; the scheduler must retry the step after a
    /// publish wakes it, since nothing is delivered on wakeup itself.
    pub fn wait<T: Clone, W, const R: usize>(
        &mut self,
        watch: &mut Watch<T, W, R>,
        waker: W,
    ) -> (r: WaitPoll<T>)
        requires
            old(watch)@.wf(),
            old(self).slot() < old(watch)@.receiver_count,
        ensures
            final(watch)@.wf(),
            final(self).slot() == old(self).slot(),
            old(watch)@.can_consume(old(self).seen()) ==> {
                &&& r == WaitPoll::Ready(old(watch)@.payload())
                &&& final(self).seen() == old(watch)@.version
                &&& exists|kept: T|
                    #[trigger] cloned::<T>(old(watch)@.payload(), kept) && final(watch)@ == old(
                        watch,
                    )@.after_consume_with(kept)
                &&& (faithful_clone::<T>() ==> final(watch)@ == old(watch)@.after_consume())
            },
            !old(watch)@.can_consume(old(self).seen()) ==> {
                &&& r is Pending
                &&& final(watch)@ == old(watch)@.after_register(old(self).slot(), waker)
                &&& *final(self) == *old(self)
            },
    {
        if !(self.version == watch.version) {
            let taken = watch.value.take();
            if let Some((v, rem)) = taken {
                if rem > 1 {
                    let kept = v.clone();
                    proof {
                        assert(cloned::<T>(old(watch)@.payload(), kept));
                    }
                    watch.value = Some((kept, rem - 1));
                    proof {
                        assert(watch@ =~= old(watch)@.after_consume_with(kept));
                    }
                } else {
                    proof {
                        assert(cloned::<T>(old(watch)@.payload(), old(watch)@.payload()));
                        assert(watch@ =~= old(watch)@.after_consume_with(old(watch)@.payload()));
                    }
                }
                self.version = watch.version;
                return WaitPoll::Ready(v);
            }
        }
        watch.wakers.set(self.id, Some(waker));
        proof {
            assert(watch@ =~= old(watch)@.after_register(old(self).slot(), waker));
        }
        WaitPoll::Pending
    }
}

} // verus!
