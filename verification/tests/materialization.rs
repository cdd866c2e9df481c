//! Tests of the materialization protocol: eager and lazy rows, inflation,
//! elision on discard, and ordering-violation detection.

use sqlite_row::column::{NameIndexMap, SqliteColumn};
use sqlite_row::error::Error;
use sqlite_row::row::SqliteRow;
use sqlite_row::statement::StatementHandle;
use sqlite_row::value::{SqliteDataType, SqliteValue};

fn columns3() -> Vec<SqliteColumn> {
    vec![
        SqliteColumn { name: String::from("id"), type_info: SqliteDataType::Integer },
        SqliteColumn { name: String::from("name"), type_info: SqliteDataType::Text },
        SqliteColumn { name: String::from("payload"), type_info: SqliteDataType::Blob },
    ]
}

fn values3() -> Vec<SqliteValue> {
    vec![
        SqliteValue::Integer(42),
        SqliteValue::Text(String::from("alice")),
        SqliteValue::Blob(vec![1, 2, 3]),
    ]
}

#[test]
fn eager_lazy_equivalence() {
    let cols = columns3();
    let names = NameIndexMap::build(&cols);

    let mut st_eager = StatementHandle::new(values3());
    let eager = SqliteRow::inflated(&mut st_eager, &cols, &names);

    let mut st_lazy = StatementHandle::new(values3());
    let (lazy, mut slot) = SqliteRow::current(&st_lazy, &cols, &names);
    SqliteRow::inflate(&mut st_lazy, &mut slot);

    for i in 0..3 {
        let a = eager.try_get_raw(i).unwrap();
        let b = lazy.get(&mut st_lazy, &mut slot, i).unwrap();
        assert_eq!(a, b);
    }
}

#[test]
fn idempotent_inflation() {
    let cols = columns3();
    let names = NameIndexMap::build(&cols);
    let mut st = StatementHandle::new(values3());
    let (row, mut slot) = SqliteRow::current(&st, &cols, &names);

    SqliteRow::inflate(&mut st, &mut slot);
    assert_eq!(st.reads(), 3);
    let first = row.get(&mut st, &mut slot, 0).unwrap();

    // a redundant second call must not copy again nor change the content
    SqliteRow::inflate(&mut st, &mut slot);
    assert_eq!(st.reads(), 3);
    let second = row.get(&mut st, &mut slot, 0).unwrap();
    assert_eq!(first, second);
}

#[test]
fn elided_inflation_on_discard() {
    let cols = columns3();
    let names = NameIndexMap::build(&cols);
    let mut st = StatementHandle::new(values3());
    let (row, mut slot) = SqliteRow::current(&st, &cols, &names);

    row.discard(&mut slot);
    assert!(!slot.has_observer());

    SqliteRow::inflate_if_needed(&mut st, &mut slot);
    assert_eq!(st.reads(), 0, "the decoding collaborator must never run");
    assert!(!slot.is_inflated());
}

#[test]
fn lazy_creation_reads_nothing() {
    let cols = columns3();
    let names = NameIndexMap::build(&cols);
    let st = StatementHandle::new(values3());
    let (row, slot) = SqliteRow::current(&st, &cols, &names);
    assert_eq!(st.reads(), 0);
    assert!(!slot.is_inflated());
    assert!(!row.is_owned());
}

#[test]
fn independence_from_cursor_lifetime() {
    let cols = columns3();
    let names = NameIndexMap::build(&cols);
    let mut st = StatementHandle::new(values3());
    let row = SqliteRow::inflated(&mut st, &cols, &names);

    // advance the cursor past the row, then drop it entirely
    st.step(vec![SqliteValue::Integer(999)]);
    st.step(Vec::new());
    drop(st);

    assert_eq!(row.try_get_raw(0).unwrap(), SqliteValue::Integer(42));
    assert_eq!(row.try_get_raw(1).unwrap(), SqliteValue::Text(String::from("alice")));
    assert_eq!(row.try_get_raw(2).unwrap(), SqliteValue::Blob(vec![1, 2, 3]));
}

#[test]
fn ordering_violation_detection() {
    let cols = columns3();
    let names = NameIndexMap::build(&cols);
    let mut st = StatementHandle::new(values3());
    let (row, mut slot) = SqliteRow::current(&st, &cols, &names);

    // the step loop forgets inflate_if_needed and advances anyway
    st.step(vec![SqliteValue::Integer(7), SqliteValue::Null, SqliteValue::Null]);

    let r = row.get(&mut st, &mut slot, 0);
    assert_eq!(r, Err(Error::InconsistentInflation));
    assert_eq!(st.reads(), 0, "no data may be read from the wrong position");
}

#[test]
fn inflate_if_needed_serves_live_slot() {
    let cols = columns3();
    let names = NameIndexMap::build(&cols);
    let mut st = StatementHandle::new(values3());
    let (row, mut slot) = SqliteRow::current(&st, &cols, &names);

    // the step loop inflates right before advancing
    SqliteRow::inflate_if_needed(&mut st, &mut slot);
    assert_eq!(st.reads(), 3);
    st.step(Vec::new());

    let v = row.get(&mut st, &mut slot, 1).unwrap();
    assert_eq!(v, SqliteValue::Text(String::from("alice")));
}

#[test]
fn deferred_get_inflates_synchronously() {
    let cols = columns3();
    let names = NameIndexMap::build(&cols);
    let mut st = StatementHandle::new(values3());
    let (row, mut slot) = SqliteRow::current(&st, &cols, &names);

    // no step has happened: get may still copy from the cursor, exactly once
    let v = row.get(&mut st, &mut slot, 0).unwrap();
    assert_eq!(v, SqliteValue::Integer(42));
    assert_eq!(st.reads(), 3);
    assert!(slot.is_inflated());

    let again = row.get(&mut st, &mut slot, 2).unwrap();
    assert_eq!(again, SqliteValue::Blob(vec![1, 2, 3]));
    assert_eq!(st.reads(), 3, "the slot, once populated, serves every read");
}

#[test]
fn publication_is_write_once() {
    let cols = columns3();
    let names = NameIndexMap::build(&cols);
    let mut st = StatementHandle::new(values3());
    let (row, mut slot) = SqliteRow::current(&st, &cols, &names);

    SqliteRow::inflate(&mut st, &mut slot);
    st.step(vec![SqliteValue::Integer(-1), SqliteValue::Null, SqliteValue::Null]);

    // a redundant inflate after the step must not touch the published content
    SqliteRow::inflate(&mut st, &mut slot);
    assert_eq!(st.reads(), 3);
    assert_eq!(row.get(&mut st, &mut slot, 0).unwrap(), SqliteValue::Integer(42));
}

#[test]
fn mismatched_slot_is_a_protocol_violation() {
    let cols = columns3();
    let names = NameIndexMap::build(&cols);
    let mut st = StatementHandle::new(values3());
    let (row, _own_slot) = SqliteRow::current(&st, &cols, &names);

    st.step(values3());
    let (_other_row, mut other_slot) = SqliteRow::current(&st, &cols, &names);

    let r = row.get(&mut st, &mut other_slot, 0);
    assert_eq!(r, Err(Error::InconsistentInflation));
}

#[test]
fn empty_row_materializes() {
    let cols: Vec<SqliteColumn> = Vec::new();
    let names = NameIndexMap::build(&cols);
    let mut st = StatementHandle::new(Vec::new());
    let row = SqliteRow::inflated(&mut st, &cols, &names);
    assert_eq!(row.column_count(), 0);
    assert_eq!(st.reads(), 0);
    assert_eq!(row.try_get_raw(0), Err(Error::IndexOutOfRange(0)));
}

#[test]
fn generation_counts_steps() {
    let mut st = StatementHandle::new(values3());
    assert_eq!(st.generation(), 0);
    assert_eq!(st.column_count(), 3);
    st.step(Vec::new());
    st.step(Vec::new());
    assert_eq!(st.generation(), 2);
    assert_eq!(st.column_count(), 0);
}
