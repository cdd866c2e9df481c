//! The inflation slot: a single-assignment publication cell bridging a
//! deferred row and the loop driving the cursor.

use vstd::prelude::*;

use crate::value::{SqliteValue, ValueModel};

verus! {

/// The mathematical model of an [`InflationSlot`].
pub struct SlotModel {
    /// The cursor generation the slot was created for.
    pub created_at: u64,
    /// Whether the deferred row that requested laziness is still alive.
    pub observer_live: bool,
    /// The published value sequence, or `None` while empty. Write-once:
    /// once `Some`, never mutated or cleared again.
    pub content: Option<Seq<ValueModel>>,
}

/// The model of a slot as `materialize_later` creates it for generation
/// `gen`: empty, with its observer alive.
pub open spec fn fresh_slot(gen: u64) -> SlotModel {
    SlotModel { created_at: gen, observer_live: true, content: None }
}

/// What publishing `vals` does to a slot: fills it if it is still empty,
/// and leaves it untouched if it is already populated (set-once).
pub open spec fn inflate_model(slot: SlotModel, vals: Seq<ValueModel>) -> SlotModel {
    if slot.content is Some {
        slot
    } else {
        SlotModel { created_at: slot.created_at, observer_live: slot.observer_live, content: Some(vals) }
    }
}

/// How many column copies publishing into `slot` costs when the row has
/// `n` columns: none if the slot is already populated.
pub open spec fn inflate_cost(slot: SlotModel, n: nat) -> nat {
    if slot.content is Some {
        0
    } else {
        n
    }
}

/// Idempotent inflation: publishing into a slot a second time leaves the
/// slot exactly as the first publication left it, and the second
/// publication performs no copy at all.
pub proof fn lemma_inflate_idempotent(slot: SlotModel, vals: Seq<ValueModel>, n: nat)
    ensures
        inflate_model(inflate_model(slot, vals), vals) == inflate_model(slot, vals),
        inflate_cost(inflate_model(slot, vals), n) == 0,
{
}

/// A single-assignment cell holding either nothing or a fully populated
/// owned value sequence, together with the liveness of the deferred row
/// observing it. The step loop holds the slot; the deferred row it was
/// created with is its only observer.
#[derive(Debug)]
pub struct InflationSlot {
    created_at: u64,
    observer_live: bool,
    content: Option<Vec<SqliteValue>>,
}

impl View for InflationSlot {
    type V = SlotModel;

    closed spec fn view(&self) -> SlotModel {
        SlotModel {
            created_at: self.created_at,
            observer_live: self.observer_live,
            content: match self.content {
                Option::None => None,
                Option::Some(v) => Some(crate::value::seq_model(v@)),
            },
        }
    }
}

impl InflationSlot {
    /// An empty slot for the row the cursor is positioned at in
    /// generation `gen`, with its observer alive.
    pub(crate) fn new(gen: u64) -> (slot: InflationSlot)
        ensures
            slot@ == fresh_slot(gen),
    {
        InflationSlot { created_at: gen, observer_live: true, content: None }
    }

    /// The cursor generation this slot was created for.
    pub fn created_at(&self) -> (g: u64)
        ensures
            g == self@.created_at,
    {
        self.created_at
    }

    /// Whether the deferred row observing this slot is still alive.
    pub fn has_observer(&self) -> (b: bool)
        ensures
            b == self@.observer_live,
    {
        self.observer_live
    }

    /// Whether the owned value sequence has been published.
    pub fn is_inflated(&self) -> (b: bool)
        ensures
            b == (self@.content is Some),
    {
        self.content.is_some()
    }

    /// Publishes `vals` if the slot is still empty; set-once, so a slot
    /// already populated is left untouched.
    pub(crate) fn publish(&mut self, vals: Vec<SqliteValue>)
        ensures
            final(self)@ == inflate_model(old(self)@, crate::value::seq_model(vals@)),
    {
        if self.content.is_none() {
            self.content = Some(vals);
        }
    }

    /// Marks the observer gone: the deferred row was dropped unread.
    pub(crate) fn release_observer(&mut self)
        ensures
            final(self)@ == (SlotModel { observer_live: false, ..old(self)@ }),
    {
        self.observer_live = false;
    }

    /// The published value at position `index`, copied out of the slot.
    pub(crate) fn value_at(&self, index: usize) -> (v: SqliteValue)
        requires
            self@.content matches Some(vals) && index < vals.len(),
        ensures
            self@.content matches Some(vals) && v@ == vals[index as int],
    {
        let vals = self.content.as_ref().unwrap();
        let v = vals[index].clone();
        proof {
            assert(crate::value::seq_model(vals@)[index as int] == vals@[index as int]@);
        }
        v
    }

    /// The length of the published value sequence.
    pub(crate) fn published_len(&self) -> (n: usize)
        requires
            self@.content is Some,
        ensures
            self@.content matches Some(vals) && n == vals.len(),
    {
        self.content.as_ref().unwrap().len()
    }
}

} // verus!
