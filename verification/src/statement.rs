//! The cursor handle: a model of the native statement whose column values
//! are valid only until the next step.
//!
//! The handle owns the values of the row the cursor currently points at,
//! a generation counter (the number of steps taken so far, identifying the
//! current row), and a read counter (how many times a column value has been
//! copied out — the call counter of the decoding collaborator, which lets
//! callers state that laziness elides copies).

use vstd::prelude::*;

use crate::value::{seq_model, SqliteValue, ValueModel};

verus! {

/// The mathematical model of a [`StatementHandle`].
pub struct CursorModel {
    /// The values of the row the cursor is currently positioned at.
    pub values: Seq<ValueModel>,
    /// The number of steps taken so far; identifies the current row.
    pub generation: u64,
    /// The number of column values copied out so far.
    pub reads: u64,
}

/// A native statement cursor positioned at one row of a result set.
/// Stepping invalidates the previous row: the row's identity is the
/// generation counter, which each step advances.
#[derive(Debug)]
pub struct StatementHandle {
    row: Vec<SqliteValue>,
    generation: u64,
    reads: u64,
}

impl View for StatementHandle {
    type V = CursorModel;

    closed spec fn view(&self) -> CursorModel {
        CursorModel { values: seq_model(self.row@), generation: self.generation, reads: self.reads }
    }
}

impl StatementHandle {
    /// A cursor freshly positioned at its first row.
    pub fn new(row: Vec<SqliteValue>) -> (s: StatementHandle)
        ensures
            s@.values == seq_model(row@),
            s@.generation == 0,
            s@.reads == 0,
    {
        StatementHandle { row, generation: 0, reads: 0 }
    }

    /// The number of columns of the current row.
    pub fn column_count(&self) -> (n: usize)
        ensures
            n == self@.values.len(),
    {
        self.row.len()
    }

    /// The generation the cursor is at: the number of steps taken so far.
    pub fn generation(&self) -> (g: u64)
        ensures
            g == self@.generation,
    {
        self.generation
    }

    /// How many column values have been copied out of this cursor.
    pub fn reads(&self) -> (r: u64)
        ensures
            r == self@.reads,
    {
        self.reads
    }

    /// Copies column `i` of the current row out into an owned value.
    /// Each call is one invocation of the decoding collaborator.
    pub fn column_value(&mut self, i: usize) -> (v: SqliteValue)
        requires
            i < old(self)@.values.len(),
            old(self)@.reads < u64::MAX,
        ensures
            v@ == old(self)@.values[i as int],
            final(self)@.values == old(self)@.values,
            final(self)@.generation == old(self)@.generation,
            final(self)@.reads == old(self)@.reads + 1,
    {
        self.reads = self.reads + 1;
        let v = self.row[i].clone();
        proof {
            assert(seq_model(self.row@)[i as int] == self.row@[i as int]@);
        }
        v
    }

    /// Advances the cursor to the next row, invalidating the previous one:
    /// the generation rises by one and the transient values are replaced.
    pub fn step(&mut self, next: Vec<SqliteValue>)
        requires
            old(self)@.generation < u64::MAX,
        ensures
            final(self)@.values == seq_model(next@),
            final(self)@.generation == old(self)@.generation + 1,
            final(self)@.reads == old(self)@.reads,
    {
        self.generation = self.generation + 1;
        self.row = next;
    }
}

} // verus!
