use arrow2::array::Array;
use pack_it::column::{Column, Primitive};
use pack_it::error::{Refusal, Violation};
use pack_it::{Kind, PackError, Table};

fn three_columns() -> Table {
    Table::with_capacity(&[Kind::I64, Kind::String, Kind::Bool], 0)
}

fn push_two_rows(table: &mut Table) {
    table.push_primitive(0, Primitive::I64(Some(1))).unwrap();
    table.push_str(1, Some("a")).unwrap();
    table.push_bool(2, Some(true)).unwrap();
    table.push_primitive(0, Primitive::I64(Some(2))).unwrap();
    table.push_str(1, None).unwrap();
    table.push_bool(2, Some(false)).unwrap();
}

#[test]
fn new_table_has_no_rows() {
    let table = three_columns();
    assert_eq!(table.rows(), 0);
    assert_eq!(table.mem_estimate(), 0);
    assert!(table.check_consistent().is_ok());
}

#[test]
fn table_without_columns_is_consistent_and_empty() {
    let mut table = Table::with_capacity(&[], 4);
    assert_eq!(table.rows(), 0);
    assert!(table.check_consistent().is_ok());
    assert!(table.finish_bulk_push().is_ok());
    assert_eq!(table.mem_estimate(), 0);
    assert!(table.take_batch().is_empty());
}

#[test]
fn pushes_add_their_cheap_cost_to_the_estimate() {
    let mut table = Table::with_capacity(
        &[Kind::Bool, Kind::String, Kind::Uuid, Kind::U8, Kind::I32, Kind::I64, Kind::F64],
        8,
    );
    table.push_bool(0, Some(true)).unwrap();
    assert_eq!(table.mem_estimate(), 1);
    table.push_bool(0, None).unwrap();
    assert_eq!(table.mem_estimate(), 2);
    table.push_null(0).unwrap();
    assert_eq!(table.mem_estimate(), 3);
    table.push_str(1, Some("abc")).unwrap();
    assert_eq!(table.mem_estimate(), 3 + 3 + 4);
    table.push_str(1, None).unwrap();
    assert_eq!(table.mem_estimate(), 10 + 4);
    table.push_str(1, Some("\u{e9}")).unwrap();
    assert_eq!(table.mem_estimate(), 14 + 2 + 4);
    table.push_fsb(2, Some(&[7u8; 16][..])).unwrap();
    assert_eq!(table.mem_estimate(), 20 + 16);
    table.push_fsb(2, None).unwrap();
    assert_eq!(table.mem_estimate(), 36);
    table.push_primitive(3, Primitive::U8(Some(9))).unwrap();
    assert_eq!(table.mem_estimate(), 37);
    table.push_primitive(4, Primitive::I32(Some(-9))).unwrap();
    assert_eq!(table.mem_estimate(), 41);
    table.push_primitive(5, Primitive::I64(None)).unwrap();
    assert_eq!(table.mem_estimate(), 49);
    table.push_primitive(6, Primitive::F64(Some(1.5f64.to_bits()))).unwrap();
    assert_eq!(table.mem_estimate(), 57);
}

#[test]
fn pushes_grow_only_their_column() {
    let mut table = three_columns();
    table.push_primitive(0, Primitive::I64(Some(5))).unwrap();
    table.push_primitive(0, Primitive::I64(Some(6))).unwrap();
    table.push_str(1, Some("x")).unwrap();
    assert_eq!(table.get(0).len(), 2);
    assert_eq!(table.get(1).len(), 1);
    assert_eq!(table.get(2).len(), 0);
    assert_eq!(table.rows(), 2);
}

#[test]
fn push_of_the_wrong_type_is_a_type_mismatch() {
    let mut table = Table::with_capacity(&[Kind::Bool, Kind::String, Kind::Uuid, Kind::I64], 0);
    assert_eq!(table.push_bool(1, Some(true)), Err(PackError::TypeMismatch { column: 1 }));
    assert_eq!(table.push_str(0, Some("no")), Err(PackError::TypeMismatch { column: 0 }));
    assert_eq!(table.push_str(3, None), Err(PackError::TypeMismatch { column: 3 }));
    assert_eq!(table.push_fsb(0, Some(&[0u8; 16][..])), Err(PackError::TypeMismatch { column: 0 }));
    assert_eq!(table.push_fsb(0, None), Err(PackError::TypeMismatch { column: 0 }));
    assert_eq!(table.push_primitive(0, Primitive::I64(Some(1))), Err(PackError::TypeMismatch { column: 0 }));
    assert_eq!(table.push_primitive(3, Primitive::I32(Some(1))), Err(PackError::TypeMismatch { column: 3 }));
    assert_eq!(table.push_primitive(3, Primitive::U8(None)), Err(PackError::TypeMismatch { column: 3 }));
    assert_eq!(
        table.push_primitive(3, Primitive::F64(Some(0f64.to_bits()))),
        Err(PackError::TypeMismatch { column: 3 })
    );
    assert_eq!(table.mem_estimate(), 0);
    for i in 0..4 {
        assert_eq!(table.get(i).len(), 0);
    }
}

#[test]
fn timestamp_column_takes_64_bit_integers() {
    let mut table = Table::with_capacity(&[Kind::TimestampSecsZ], 0);
    assert!(table.push_primitive(0, Primitive::I64(Some(1_700_000_000))).is_ok());
    assert_eq!(table.rows(), 1);
    let batch = table.take_batch();
    match &batch[0] {
        Column::I64(a) => assert_eq!(a.inner.value(0), 1_700_000_000),
        _ => panic!("a timestamp column is built as 64-bit integers"),
    }
}

#[test]
fn byte_string_of_the_wrong_width_is_rejected() {
    let mut table = Table::with_capacity(&[Kind::Uuid], 0);
    assert_eq!(
        table.push_fsb(0, Some(&[1u8, 2, 3][..])),
        Err(PackError::ValueRejected { column: 0 })
    );
    assert_eq!(table.rows(), 0);
    assert_eq!(table.mem_estimate(), 16);
    assert!(table.push_fsb(0, Some(&[1u8; 16][..])).is_ok());
    assert_eq!(table.rows(), 1);
    assert_eq!(table.mem_estimate(), 32);
}

#[test]
fn columns_of_different_lengths_are_a_schema_violation() {
    let mut table = three_columns();
    table.push_primitive(0, Primitive::I64(Some(1))).unwrap();
    let uneven =
        PackError::SchemaViolation(Violation::Uneven { column: 1, expected: 1, found: 0 });
    assert_eq!(table.check_consistent(), Err(uneven));
    assert_eq!(table.finish_bulk_push(), Err(uneven));
    assert_eq!(table.mem_estimate(), 8);
    table.push_str(1, None).unwrap();
    table.push_null(2).unwrap();
    assert_eq!(table.check_consistent(), Ok(()));
}

#[test]
fn divergence_in_a_later_column_is_found() {
    let mut table = three_columns();
    table.push_primitive(0, Primitive::I64(Some(1))).unwrap();
    table.push_str(1, Some("a")).unwrap();
    assert_eq!(
        table.check_consistent(),
        Err(PackError::SchemaViolation(Violation::Uneven { column: 2, expected: 1, found: 0 }))
    );
}

#[test]
fn the_first_column_that_differs_is_reported() {
    let mut table = Table::with_capacity(&[Kind::Bool, Kind::Bool, Kind::Bool, Kind::Bool], 0);
    for (column, rows) in [(0, 2), (1, 2), (2, 5), (3, 1)] {
        for _ in 0..rows {
            table.push_null(column).unwrap();
        }
    }
    assert_eq!(
        table.check_consistent(),
        Err(PackError::SchemaViolation(Violation::Uneven { column: 2, expected: 2, found: 5 }))
    );
}

#[test]
fn finish_bulk_push_leaves_every_column_at_the_same_length() {
    let mut table = three_columns();
    push_two_rows(&mut table);
    assert!(table.finish_bulk_push().is_ok());
    let rows = table.rows();
    assert_eq!(rows, 2);
    for i in 0..3 {
        assert_eq!(table.get(i).len(), rows);
    }
}

#[test]
fn finish_bulk_push_replaces_the_estimate_by_the_exact_bytes() {
    let mut table = three_columns();
    push_two_rows(&mut table);
    assert_eq!(table.mem_estimate(), 8 + 5 + 1 + 8 + 4 + 1);
    table.finish_bulk_push().unwrap();
    // ids: 2 * 8; names: bitmap 2 / 8, one byte of text, 3 offsets of 4; flags: 2 / 8
    assert_eq!(table.mem_estimate(), 16 + (0 + 1 + 12) + 0);
}

#[test]
fn exact_bytes_count_bitmaps_by_whole_bytes() {
    let mut table = Table::with_capacity(&[Kind::Bool, Kind::U8], 0);
    for i in 0..16 {
        table.push_bool(0, if i == 3 { None } else { Some(true) }).unwrap();
        table.push_primitive(1, Primitive::U8(Some(i))).unwrap();
    }
    table.finish_bulk_push().unwrap();
    // flags: validity 16 / 8 and values 16 / 8; bytes: no validity, 16 values
    assert_eq!(table.mem_estimate(), 2 + 2 + 16);
}

#[test]
fn take_batch_yields_one_column_per_field_in_schema_order() {
    let mut table = three_columns();
    push_two_rows(&mut table);
    table.finish_bulk_push().unwrap();
    let batch = table.take_batch();
    assert_eq!(batch.len(), 3);
    assert!(matches!(batch[0], Column::I64(_)));
    assert!(matches!(batch[1], Column::Utf8(_)));
    assert!(matches!(batch[2], Column::Bool(_)));
    for column in &batch {
        assert_eq!(column.len(), 2);
    }
    assert_eq!(table.rows(), 0);
    assert_eq!(table.mem_estimate(), 0);
    for i in 0..3 {
        assert_eq!(table.get(i).len(), 0);
    }
}

#[test]
fn take_batch_keeps_values_and_nulls() {
    let mut table = three_columns();
    push_two_rows(&mut table);
    let batch = table.take_batch();
    match &batch[0] {
        Column::I64(a) => {
            let ids: Vec<Option<i64>> = a.inner.iter().map(|v| v.copied()).collect();
            assert_eq!(ids, vec![Some(1), Some(2)]);
        }
        _ => panic!("ids are 64-bit integers"),
    }
    match &batch[1] {
        Column::Utf8(a) => {
            let names: Vec<Option<&str>> = a.inner.iter().collect();
            assert_eq!(names, vec![Some("a"), None]);
            assert_eq!(a.inner.null_count(), 1);
        }
        _ => panic!("names are texts"),
    }
    match &batch[2] {
        Column::Bool(a) => {
            let flags: Vec<Option<bool>> = a.iter().collect();
            assert_eq!(flags, vec![Some(true), Some(false)]);
        }
        _ => panic!("flags are booleans"),
    }
}

#[test]
fn table_builds_again_after_a_batch_was_taken() {
    let mut table = three_columns();
    push_two_rows(&mut table);
    let first = table.take_batch();
    push_two_rows(&mut table);
    push_two_rows(&mut table);
    let second = table.take_batch();
    assert_eq!(first[0].len(), 2);
    assert_eq!(second[0].len(), 4);
}

#[test]
fn every_kind_survives_the_batch() {
    let mut table = Table::with_capacity(&[Kind::U8, Kind::I32, Kind::F64, Kind::Uuid], 2);
    table.push_primitive(0, Primitive::U8(Some(200))).unwrap();
    table.push_primitive(0, Primitive::U8(None)).unwrap();
    table.push_primitive(1, Primitive::I32(Some(-7))).unwrap();
    table.push_null(1).unwrap();
    table.push_primitive(2, Primitive::F64(Some(2.25f64.to_bits()))).unwrap();
    table.push_primitive(2, Primitive::F64(None)).unwrap();
    table.push_fsb(3, Some(&[3u8; 16][..])).unwrap();
    table.push_fsb(3, None).unwrap();
    let batch = table.take_batch();
    match &batch[0] {
        Column::U8(a) => {
            assert_eq!(a.inner.iter().map(|v| v.copied()).collect::<Vec<_>>(), vec![Some(200), None])
        }
        _ => panic!("bytes"),
    }
    match &batch[1] {
        Column::I32(a) => {
            assert_eq!(a.inner.iter().map(|v| v.copied()).collect::<Vec<_>>(), vec![Some(-7), None])
        }
        _ => panic!("32-bit integers"),
    }
    match &batch[2] {
        Column::F64(a) => {
            assert_eq!(a.inner.iter().map(|v| v.copied()).collect::<Vec<_>>(), vec![Some(2.25), None])
        }
        _ => panic!("floating point"),
    }
    match &batch[3] {
        Column::Fsb(a) => {
            assert_eq!(a.size(), 16);
            assert_eq!(a.iter().collect::<Vec<_>>(), vec![Some(&[3u8; 16][..]), None]);
        }
        _ => panic!("fixed-width binary"),
    }
}

#[test]
fn get_many_hands_out_the_named_columns_in_schema_order() {
    let mut table = three_columns();
    {
        let mut views = table.get_many(&[2, 0, 7]);
        assert_eq!(views.len(), 2);
        views[0].push_primitive(Primitive::I64(Some(4))).unwrap();
        views[1].push_bool(Some(true)).unwrap();
        assert_eq!(views[1].push_primitive(Primitive::I64(Some(4))), Err(Refusal::TypeMismatch));
    }
    assert_eq!(table.get(0).len(), 1);
    assert_eq!(table.get(1).len(), 0);
    assert_eq!(table.get(2).len(), 1);
    assert_eq!(table.mem_estimate(), 0);
    assert!(table.get_many(&[]).is_empty());
    assert_eq!(table.get_many(&[1, 1]).len(), 1);
}

#[test]
fn pushes_through_get_are_counted_at_the_next_bulk_end() {
    let mut table = Table::with_capacity(&[Kind::I32], 0);
    table.get(0).push_primitive(Primitive::I32(Some(1))).unwrap();
    table.get(0).push_null();
    assert_eq!(table.mem_estimate(), 0);
    table.finish_bulk_push().unwrap();
    assert_eq!(table.mem_estimate(), 2 * 4);
}

#[test]
fn table_knows_its_shape() {
    let table = three_columns();
    assert_eq!(table.width(), 3);
    assert!(table.is_wf());
    assert!(table.is_typed());
    assert_eq!(Table::with_capacity(&[], 0).width(), 0);
}

#[test]
fn column_of_another_type_is_noticed() {
    let mut table = Table::with_capacity(&[Kind::I64, Kind::TimestampSecsZ, Kind::Uuid], 0);
    assert!(table.is_typed());
    *table.get(1) = Kind::I64.array_with_capacity(0);
    assert!(table.is_typed());
    *table.get(0) = Kind::I32.array_with_capacity(0);
    assert!(!table.is_typed());
    *table.get(0) = Kind::I64.array_with_capacity(0);
    *table.get(2) = Kind::Bool.array_with_capacity(0);
    assert!(!table.is_typed());
    // the table is a table all the same, and its batch has what it holds
    assert!(table.is_wf());
    assert!(matches!(table.take_batch()[2], Column::Bool(_)));
    assert!(table.is_typed());
}

#[test]
fn capacity_is_bounded_by_what_an_allocation_holds() {
    assert!(pack_it::builders::capacity_fits(0));
    assert!(pack_it::builders::capacity_fits(isize::MAX as usize / 16));
    assert!(!pack_it::builders::capacity_fits(isize::MAX as usize / 16 + 1));
    assert!(!pack_it::builders::capacity_fits(usize::MAX));
}
