//! The row snapshot and the materialization protocol.
//!
//! A row is produced either eagerly (`inflated`: every column copied at the
//! cursor's current position) or lazily (`current`: nothing copied, an empty
//! inflation slot created beside the row). The loop driving the cursor calls
//! `inflate_if_needed` immediately before every step; a consumer reads a
//! deferred row through `get`, which publishes synchronously if the cursor is
//! still on the row's generation and fails with `InconsistentInflation` if a
//! step has already superseded the row without inflation.

use vstd::prelude::*;

use crate::column::{first_match, NameIndexMap, SqliteColumn};
use crate::error::Error;
use crate::slot::{fresh_slot, inflate_cost, inflate_model, InflationSlot, SlotModel};
use crate::statement::{CursorModel, StatementHandle};
use crate::value::{seq_model, SqliteValue, ValueModel};

verus! {

/// The lifecycle of a row snapshot: either every value is already owned, or
/// materialization is pending in the inflation slot created alongside.
pub enum RowStateModel {
    /// All values copied out of the cursor; independent of cursor lifetime.
    Owned(Seq<ValueModel>),
    /// Values not yet populated; the slot created at cursor generation
    /// `created_at` will eventually hold them.
    Deferred { created_at: u64 },
}

/// The mathematical model of a [`SqliteRow`].
pub struct RowModel {
    /// The lifecycle state and, for owned rows, the value sequence.
    pub state: RowStateModel,
    /// The ordered column descriptors, shared by every row of the result set.
    pub columns: Seq<SqliteColumn>,
    /// The name-to-index entries, one per column, in ordinal order.
    pub names: Seq<Seq<char>>,
}

enum RowValues {
    Owned(Vec<SqliteValue>),
    Deferred { created_at: u64 },
}

/// One row of a result set: a fixed-size ordered sequence of values plus the
/// column metadata and the name index map of its statement.
pub struct SqliteRow {
    values: RowValues,
    columns: Vec<SqliteColumn>,
    column_names: NameIndexMap,
}

/// Direct lookup in an owned value sequence: the value at `index`, or
/// nothing when `index` is out of range. Mentions no cursor and no slot:
/// what an owned row yields is independent of both.
pub open spec fn owned_lookup(vals: Seq<ValueModel>, index: int) -> Option<ValueModel> {
    if 0 <= index < vals.len() {
        Some(vals[index])
    } else {
        None
    }
}

impl View for SqliteRow {
    type V = RowModel;

    closed spec fn view(&self) -> RowModel {
        RowModel {
            state: match self.values {
                RowValues::Owned(v) => RowStateModel::Owned(seq_model(v@)),
                RowValues::Deferred { created_at } => RowStateModel::Deferred { created_at },
            },
            columns: self.columns@,
            names: self.column_names@,
        }
    }
}

impl SqliteRow {
    /// Well-formedness: an owned row has exactly one value per column, and
    /// the name index map carries the columns' names in ordinal order.
    pub open spec fn wf(self) -> bool {
        &&& (self@.state matches RowStateModel::Owned(vals) ==> vals.len() == self@.columns.len())
        &&& self@.names == self@.columns.map_values(|c: SqliteColumn| c.name@)
    }

    /// Eager materialization: reads every column at the cursor's current
    /// position, copies each into an owned value, and returns a fully owned
    /// row with no further dependency on the cursor.
    pub fn inflated(
        statement: &mut StatementHandle,
        columns: &Vec<SqliteColumn>,
        column_names: &NameIndexMap,
    ) -> (row: SqliteRow)
        requires
            columns@.len() == old(statement)@.values.len(),
            column_names@ == columns@.map_values(|c: SqliteColumn| c.name@),
            old(statement)@.reads + old(statement)@.values.len() <= u64::MAX,
        ensures
            row@.state == RowStateModel::Owned(old(statement)@.values),
            row@.columns == columns@,
            row@.names == column_names@,
            row.wf(),
            final(statement)@.values == old(statement)@.values,
            final(statement)@.generation == old(statement)@.generation,
            final(statement)@.reads == old(statement)@.reads + old(statement)@.values.len(),
    {
        let values = read_all(statement);
        SqliteRow {
            values: RowValues::Owned(values),
            columns: clone_columns(columns),
            column_names: column_names.clone(),
        }
    }

    /// Lazy materialization: creates a deferred row referencing the cursor's
    /// current generation, plus an empty inflation slot for the step loop.
    /// Touches no cursor memory — the cursor is not even borrowed mutably,
    /// so no column can be copied here.
    pub fn current(
        statement: &StatementHandle,
        columns: &Vec<SqliteColumn>,
        column_names: &NameIndexMap,
    ) -> (pair: (SqliteRow, InflationSlot))
        requires
            column_names@ == columns@.map_values(|c: SqliteColumn| c.name@),
        ensures
            pair.0@.state == (RowStateModel::Deferred { created_at: statement@.generation }),
            pair.0@.columns == columns@,
            pair.0@.names == column_names@,
            pair.0.wf(),
            pair.1@ == fresh_slot(statement@.generation),
    {
        let row = SqliteRow {
            values: RowValues::Deferred { created_at: statement.generation() },
            columns: clone_columns(columns),
            column_names: column_names.clone(),
        };
        let slot = InflationSlot::new(statement.generation());
        (row, slot)
    }

    /// Inflation: reads every column at the cursor's current position and
    /// publishes the owned value sequence into the slot exactly once. A slot
    /// already populated is left untouched and nothing is copied (set-once);
    /// an empty slot must still be on the generation it was created for.
    pub fn inflate(statement: &mut StatementHandle, slot: &mut InflationSlot)
        requires
            old(slot)@.content is None ==> old(slot)@.created_at == old(statement)@.generation,
            old(statement)@.reads + old(statement)@.values.len() <= u64::MAX,
        ensures
            final(slot)@ == inflate_model(old(slot)@, old(statement)@.values),
            final(statement)@.values == old(statement)@.values,
            final(statement)@.generation == old(statement)@.generation,
            final(statement)@.reads == old(statement)@.reads + inflate_cost(
                old(slot)@,
                old(statement)@.values.len(),
            ),
    {
        if !slot.is_inflated() {
            let values = read_all(statement);
            slot.publish(values);
        }
    }

    /// Conditional inflation, called by the step loop immediately before
    /// advancing the cursor. If the deferred row was dropped unread, the
    /// slot has no live observer and the copy is elided entirely; if the
    /// slot is live and empty it is inflated; if already populated, no-op.
    pub fn inflate_if_needed(statement: &mut StatementHandle, slot: &mut InflationSlot)
        requires
            (old(slot)@.observer_live && old(slot)@.content is None) ==> old(slot)@.created_at
                == old(statement)@.generation,
            old(statement)@.reads + old(statement)@.values.len() <= u64::MAX,
        ensures
            old(slot)@.observer_live ==> final(slot)@ == inflate_model(
                old(slot)@,
                old(statement)@.values,
            ),
            old(slot)@.observer_live ==> final(statement)@.reads == old(statement)@.reads
                + inflate_cost(old(slot)@, old(statement)@.values.len()),
            !old(slot)@.observer_live ==> final(slot)@ == old(slot)@,
            !old(slot)@.observer_live ==> final(statement)@.reads == old(statement)@.reads,
            final(statement)@.values == old(statement)@.values,
            final(statement)@.generation == old(statement)@.generation,
    {
        if slot.has_observer() {
            Self::inflate(statement, slot);
        }
    }

    /// Drops a row without reading it. For the deferred row observing
    /// `slot`, this is the cancellation signal: the slot loses its observer
    /// and the step loop will skip its inflation. The slot's content and
    /// generation are untouched; an owned row, or a row of another
    /// generation, leaves the slot entirely unchanged.
    pub fn discard(self, slot: &mut InflationSlot)
        ensures
            final(slot)@.created_at == old(slot)@.created_at,
            final(slot)@.content == old(slot)@.content,
            final(slot)@.observer_live == (old(slot)@.observer_live && !(
            self@.state matches RowStateModel::Deferred { created_at } && created_at == old(
                slot,
            )@.created_at)),
    {
        match self.values {
            RowValues::Deferred { created_at } => {
                if created_at == slot.created_at() {
                    slot.release_observer();
                }
            },
            RowValues::Owned(_) => {},
        }
    }

    /// Whether every value of this row is already owned.
    pub fn is_owned(&self) -> (b: bool)
        ensures
            b == (self@.state matches RowStateModel::Owned(_)),
    {
        match &self.values {
            RowValues::Owned(_) => true,
            RowValues::Deferred { .. } => false,
        }
    }

    /// The column metadata of this row's result set; available without any
    /// inflation.
    pub fn columns(&self) -> (c: &Vec<SqliteColumn>)
        ensures
            c@ == self@.columns,
    {
        &self.columns
    }

    /// The number of columns of this row.
    pub fn column_count(&self) -> (n: usize)
        ensures
            n == self@.columns.len(),
    {
        self.columns.len()
    }

    /// Positional index resolution: the index itself when it is within the
    /// column count, and `IndexOutOfRange` exactly otherwise.
    pub fn resolve_ordinal(&self, index: usize) -> (r: Result<usize, Error>)
        ensures
            index < self@.columns.len() ==> r == Ok::<usize, Error>(index),
            index >= self@.columns.len() ==> r == Err::<usize, Error>(Error::IndexOutOfRange(index)),
    {
        if index < self.columns.len() {
            Ok(index)
        } else {
            Err(Error::IndexOutOfRange(index))
        }
    }

    /// Named index resolution: the first column position carrying `name`
    /// (first-wins when several columns share one name), and
    /// `ColumnNotFound` carrying the requested name exactly when no column
    /// does.
    pub fn resolve_name(&self, name: &String) -> (r: Result<usize, Error>)
        ensures
            match first_match(self@.names, name@) {
                Some(i) => r == Ok::<usize, Error>(i as usize),
                None => r matches Err(e) && e matches Error::ColumnNotFound(n) && n@ == name@,
            },
    {
        match self.column_names.lookup(name) {
            Some(i) => Ok(i),
            None => Err(Error::ColumnNotFound(name.clone())),
        }
    }

    /// Protocol read of a row. For an owned row this is a direct lookup:
    /// cursor and slot are left untouched, so the result is independent of
    /// both. For a deferred row the slot decides: a published sequence is
    /// read directly; an empty slot still on the row's generation is
    /// inflated synchronously now; and an empty slot whose generation the
    /// cursor has already stepped past — or a slot of another row — is the
    /// protocol violation `InconsistentInflation`, never data read from the
    /// wrong cursor position.
    pub fn get(
        &self,
        statement: &mut StatementHandle,
        slot: &mut InflationSlot,
        index: usize,
    ) -> (r: Result<SqliteValue, Error>)
        requires
            old(statement)@.reads + old(statement)@.values.len() <= u64::MAX,
        ensures
            self@.state matches RowStateModel::Owned(vals) ==> {
                &&& final(statement)@ == old(statement)@
                &&& final(slot)@ == old(slot)@
                &&& match owned_lookup(vals, index as int) {
                    Some(v) => r matches Ok(got) && got@ == v,
                    None => r == Err::<SqliteValue, Error>(Error::IndexOutOfRange(index)),
                }
            },
            self@.state matches RowStateModel::Deferred { created_at } && created_at != old(
                slot,
            )@.created_at ==> {
                &&& final(statement)@ == old(statement)@
                &&& final(slot)@ == old(slot)@
                &&& r == Err::<SqliteValue, Error>(Error::InconsistentInflation)
            },
            self@.state matches RowStateModel::Deferred { created_at } && created_at == old(
                slot,
            )@.created_at && old(slot)@.content is Some ==> {
                &&& final(statement)@ == old(statement)@
                &&& final(slot)@ == old(slot)@
                &&& match owned_lookup(old(slot)@.content->0, index as int) {
                    Some(v) => r matches Ok(got) && got@ == v,
                    None => r == Err::<SqliteValue, Error>(Error::IndexOutOfRange(index)),
                }
            },
            self@.state matches RowStateModel::Deferred { created_at } && created_at == old(
                slot,
            )@.created_at && old(slot)@.content is None && old(statement)@.generation
                == created_at ==> {
                &&& final(slot)@ == inflate_model(old(slot)@, old(statement)@.values)
                &&& final(statement)@.values == old(statement)@.values
                &&& final(statement)@.generation == old(statement)@.generation
                &&& final(statement)@.reads == old(statement)@.reads + old(
                    statement,
                )@.values.len()
                &&& match owned_lookup(old(statement)@.values, index as int) {
                    Some(v) => r matches Ok(got) && got@ == v,
                    None => r == Err::<SqliteValue, Error>(Error::IndexOutOfRange(index)),
                }
            },
            self@.state matches RowStateModel::Deferred { created_at } && created_at == old(
                slot,
            )@.created_at && old(slot)@.content is None && old(statement)@.generation
                != created_at ==> {
                &&& final(statement)@ == old(statement)@
                &&& final(slot)@ == old(slot)@
                &&& r == Err::<SqliteValue, Error>(Error::InconsistentInflation)
            },
    {
        match &self.values {
            RowValues::Owned(vals) => {
                if index < vals.len() {
                    let v = vals[index].clone();
                    proof {
                        assert(seq_model(vals@)[index as int] == vals@[index as int]@);
                    }
                    Ok(v)
                } else {
                    Err(Error::IndexOutOfRange(index))
                }
            },
            RowValues::Deferred { created_at } => {
                if *created_at != slot.created_at() {
                    return Err(Error::InconsistentInflation);
                }
                if !slot.is_inflated() {
                    if statement.generation() != *created_at {
                        return Err(Error::InconsistentInflation);
                    }
                    Self::inflate(statement, slot);
                }
                let n = slot.published_len();
                if index < n {
                    Ok(slot.value_at(index))
                } else {
                    Err(Error::IndexOutOfRange(index))
                }
            },
        }
    }

    /// Direct read of an owned row: the value at `index`, or
    /// `IndexOutOfRange` exactly when `index` is out of range. Takes neither
    /// cursor nor slot: what an owned row yields cannot depend on either.
    pub fn try_get_raw(&self, index: usize) -> (r: Result<SqliteValue, Error>)
        requires
            self@.state matches RowStateModel::Owned(_),
        ensures
            self@.state matches RowStateModel::Owned(vals) && match owned_lookup(
                vals,
                index as int,
            ) {
                Some(v) => r matches Ok(got) && got@ == v,
                None => r == Err::<SqliteValue, Error>(Error::IndexOutOfRange(index)),
            },
    {
        match &self.values {
            RowValues::Owned(vals) => {
                if index < vals.len() {
                    let v = vals[index].clone();
                    proof {
                        assert(seq_model(vals@)[index as int] == vals@[index as int]@);
                    }
                    Ok(v)
                } else {
                    Err(Error::IndexOutOfRange(index))
                }
            },
            RowValues::Deferred { .. } => unreached(),
        }
    }
}

/// Copies every column of the cursor's current row into owned values, in
/// ordinal order. This is the only place cursor memory is read.
fn read_all(statement: &mut StatementHandle) -> (values: Vec<SqliteValue>)
    requires
        old(statement)@.reads + old(statement)@.values.len() <= u64::MAX,
    ensures
        seq_model(values@) == old(statement)@.values,
        final(statement)@.values == old(statement)@.values,
        final(statement)@.generation == old(statement)@.generation,
        final(statement)@.reads == old(statement)@.reads + old(statement)@.values.len(),
{
    let size = statement.column_count();
    let mut values: Vec<SqliteValue> = Vec::new();
    let mut i: usize = 0;
    while i < size
        invariant
            i <= size,
            size == statement@.values.len(),
            statement@.values == old(statement)@.values,
            statement@.generation == old(statement)@.generation,
            statement@.reads == old(statement)@.reads + i,
            old(statement)@.reads + size <= u64::MAX,
            values@.len() == i,
            forall|j: int| 0 <= j < i ==> values@[j]@ == statement@.values[j],
        decreases size - i,
    {
        let v = statement.column_value(i);
        values.push(v);
        i = i + 1;
    }
    proof {
        assert(seq_model(values@) =~= statement@.values);
    }
    values
}

/// Copies the shared column descriptors for a new row, element for element.
pub(crate) fn clone_columns(columns: &Vec<SqliteColumn>) -> (res: Vec<SqliteColumn>)
    ensures
        res@ == columns@,
{
    let res = columns.clone();
    proof {
        assert forall|i: int| 0 <= i < res@.len() implies res@[i] == columns@[i] by {
            assert(cloned::<SqliteColumn>(columns@[i], res@[i]));
        }
        assert(res@ =~= columns@);
    }
    res
}

/// Eager/lazy equivalence: for one cursor state, the value sequence an
/// eagerly materialized row owns and the value sequence that inflation
/// publishes into a freshly created slot are the same, column by column.
pub proof fn lemma_eager_lazy_equivalence(cur: CursorModel)
    ensures
        inflate_model(fresh_slot(cur.generation), cur.values) == (SlotModel {
            created_at: cur.generation,
            observer_live: true,
            content: Some(cur.values),
        }),
{
}

} // verus!
