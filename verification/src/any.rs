//! The type-erasure adapter: a backend-tagged row for a multi-backend
//! abstraction layer that does not know the concrete engine type.
//!
//! The adapter carries the row together with its column metadata and only
//! ever holds a fully materialized row: a deferred row must never cross the
//! erasure boundary, since nothing behind it could run the inflation
//! protocol before the producing cursor steps on.

use vstd::prelude::*;

use crate::column::SqliteColumn;
use crate::row::{clone_columns, RowModel, RowStateModel, SqliteRow};

verus! {

/// The mathematical model of an [`AnyRow`].
pub struct AnyRowModel {
    /// The column descriptors carried beside the erased row.
    pub columns: Seq<SqliteColumn>,
    /// The model of the wrapped row.
    pub row: RowModel,
}

/// The concrete backend a type-erased row came from.
pub enum AnyRowKind {
    Sqlite(SqliteRow),
}

/// A backend-tagged row: the erased row plus its column metadata.
pub struct AnyRow {
    columns: Vec<SqliteColumn>,
    kind: AnyRowKind,
}

impl View for AnyRow {
    type V = AnyRowModel;

    closed spec fn view(&self) -> AnyRowModel {
        AnyRowModel {
            columns: self.columns@,
            row: match self.kind {
                AnyRowKind::Sqlite(row) => row@,
            },
        }
    }
}

impl AnyRow {
    /// Erases a fully materialized row. The row must be owned: a deferred
    /// row may not cross the erasure boundary.
    pub fn from_row(row: SqliteRow) -> (r: AnyRow)
        requires
            row@.state matches RowStateModel::Owned(_),
        ensures
            r@.row == row@,
            r@.columns == row@.columns,
    {
        let columns = clone_columns(row.columns());
        AnyRow { columns, kind: AnyRowKind::Sqlite(row) }
    }

    /// Erases a row if it is fully materialized, and hands a deferred row
    /// back unchanged instead of carrying it across the boundary.
    pub fn try_from_row(row: SqliteRow) -> (r: Result<AnyRow, SqliteRow>)
        ensures
            row@.state matches RowStateModel::Owned(_) ==> r matches Ok(a) && a@.row == row@
                && a@.columns == row@.columns,
            row@.state matches RowStateModel::Deferred { .. } ==> r == Err::<
                AnyRow,
                SqliteRow,
            >(row),
    {
        if row.is_owned() {
            Ok(Self::from_row(row))
        } else {
            Err(row)
        }
    }

    /// The column metadata carried beside the erased row.
    pub fn columns(&self) -> (c: &Vec<SqliteColumn>)
        ensures
            c@ == self@.columns,
    {
        &self.columns
    }

    /// The wrapped row, still fully materialized.
    pub fn row(&self) -> (r: &SqliteRow)
        ensures
            r@ == self@.row,
    {
        match &self.kind {
            AnyRowKind::Sqlite(row) => row,
        }
    }
}

} // verus!
