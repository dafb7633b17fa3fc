//! The mathematical model of the watch: an abstract state together with
//! the transition functions that the executable operations are specified
//! against. The laws of the primitive are proved over these transitions.

use vstd::prelude::*;

use crate::version::next_version;

verus! {

/// Abstract state of a watch.
///
/// `value` holds the latest published payload together with the number of
/// observers that have yet to consume it. `wakers` has one slot per unit
/// of observer capacity; an occupied slot holds the wake handle of a
/// currently suspended observer.
#[verifier::ext_equal]
pub ghost struct WatchModel<T, W> {
    pub value: Option<(T, nat)>,
    pub version: u32,
    pub wakers: Seq<Option<W>>,
    pub receiver_count: nat,
    pub capacity: nat,
}

/// The values held by the occupied slots of `s`, in slot order.
pub open spec fn somes<W>(s: Seq<Option<W>>) -> Seq<W>
    decreases s.len(),
{
    if s.len() == 0 {
        Seq::empty()
    } else {
        somes(s.drop_last()) + match s.last() {
            Some(w) => seq![w],
            None => Seq::empty(),
        }
    }
}

impl<T, W> WatchModel<T, W> {
    /// The state of a freshly constructed watch: no value, version zero,
    /// no suspended observers, no observers registered.
    pub open spec fn init(capacity: nat) -> WatchModel<T, W> {
        WatchModel {
            value: None,
            version: 0,
            wakers: Seq::new(capacity, |i: int| None::<W>),
            receiver_count: 0,
            capacity: capacity,
        }
    }

    /// Well-formedness: bookkeeping never exceeds the fixed capacity, and
    /// a stored value is owed to no more observers than are registered.
    pub open spec fn wf(self) -> bool {
        &&& self.receiver_count <= self.capacity
        &&& self.wakers.len() == self.capacity
        &&& (self.value matches Some(pv) ==> pv.1 <= self.receiver_count)
    }

    /// State after a publish: the slot is overwritten with the new payload,
    /// owed once to every currently registered observer; the version
    /// advances by one; every waker slot empties (all are woken).
    pub open spec fn after_send(self, v: T) -> WatchModel<T, W> {
        WatchModel {
            value: Some((v, self.receiver_count)),
            version: next_version(self.version),
            wakers: Seq::new(self.wakers.len(), |i: int| None::<W>),
            ..self
        }
    }

    /// The wake handles a publish hands back to the scheduler: the
    /// contents of the occupied waker slots, in slot order.
    pub open spec fn woken(self) -> Seq<W> {
        somes(self.wakers)
    }

    /// Whether an observer whose last-seen tag is `seen` finds an unseen
    /// value right now: the stored tag differs and a value is present.
    pub open spec fn can_consume(self, seen: u32) -> bool {
        seen != self.version && self.value is Some
    }

    /// The payload currently stored.
    pub open spec fn payload(self) -> T
        recommends
            self.value is Some,
    {
        self.value.unwrap().0
    }

    /// State after an observer consumes the stored value: one fewer
    /// pending consumption; the slot empties when none remain. When the
    /// slot stays occupied, it holds `kept` — the copy of the payload
    /// handed to the observers still owed it.
    pub open spec fn after_consume_with(self, kept: T) -> WatchModel<T, W>
        recommends
            self.value is Some,
    {
        WatchModel {
            value: if self.value.unwrap().1 <= 1 {
                None
            } else {
                Some((kept, (self.value.unwrap().1 - 1) as nat))
            },
            ..self
        }
    }

    /// State after an observer consumes the stored value and the payload
    /// kept for the remaining observers is the stored one itself.
    pub open spec fn after_consume(self) -> WatchModel<T, W>
        recommends
            self.value is Some,
    {
        self.after_consume_with(self.payload())
    }

    /// State after a new observer is registered.
    pub open spec fn after_receiver(self) -> WatchModel<T, W> {
        WatchModel { receiver_count: self.receiver_count + 1, ..self }
    }

    /// State after a suspended observer stores its wake handle in its slot.
    pub open spec fn after_register(self, id: nat, w: W) -> WatchModel<T, W> {
        WatchModel { wakers: self.wakers.update(id as int, Some(w)), ..self }
    }
}

} // verus!
