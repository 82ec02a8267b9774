use pack_it::column::{Column, Primitive};
use pack_it::packer::{FLUSH_BYTES, FLUSH_ROWS};
use pack_it::error::Violation;
use pack_it::{Kind, PackError, Packer, TableField};

fn schema() -> Vec<TableField> {
    vec![
        TableField::new("id", Kind::I64, false),
        TableField::new("name", Kind::String, true),
    ]
}

fn push_row(packer: &mut Packer, id: i64, name: Option<&str>) {
    packer.table().push_primitive(0, Primitive::I64(Some(id))).unwrap();
    packer.table().push_str(1, name).unwrap();
}

#[test]
fn thresholds_are_half_a_gibibyte_and_a_hundred_thousand_rows() {
    assert_eq!(FLUSH_BYTES, 512 * 1024 * 1024);
    assert_eq!(FLUSH_ROWS, 100_000);
}

#[test]
fn untouched_packer_hands_out_nothing() {
    let mut packer = Packer::new(&schema());
    assert!(matches!(packer.consider_flushing(), Ok(None)));
    assert!(matches!(packer.flush(), Ok(None)));
    assert!(matches!(packer.finish(), Ok(None)));
}

#[test]
fn finish_hands_out_the_remaining_rows() {
    let mut packer = Packer::new(&schema());
    push_row(&mut packer, 1, Some("a"));
    push_row(&mut packer, 2, None);
    assert!(matches!(packer.consider_flushing(), Ok(None)));
    let batch = packer.finish().unwrap().unwrap();
    assert_eq!(batch.len(), 2);
    assert_eq!(batch[0].len(), 2);
    assert!(matches!(batch[0], Column::I64(_)));
    assert!(matches!(batch[1], Column::Utf8(_)));
}

#[test]
fn memory_past_the_threshold_gives_exactly_one_batch() {
    let mut packer = Packer::with_thresholds(&schema(), 100, 1_000);
    let mut batches = 0;
    let mut rows_out = 0;
    for i in 0..8 {
        // each row adds 8 + (2 + 4) bytes to the estimate
        push_row(&mut packer, i, Some("ab"));
        packer.table().finish_bulk_push().unwrap();
        let estimate = packer.table().mem_estimate();
        match packer.consider_flushing().unwrap() {
            Some(batch) => {
                assert!(estimate > 100);
                batches += 1;
                rows_out += batch[0].len();
                assert_eq!(packer.table().mem_estimate(), 0);
                assert_eq!(packer.table().rows(), 0);
                assert!(matches!(packer.consider_flushing(), Ok(None)));
            }
            None => assert!(estimate <= 100),
        }
    }
    // exact bytes per row: 8 for the id, 2 for the text, 4 per offset and 4 once
    // 7 rows hold 7 * 14 + 4 = 102 bytes, 6 rows hold 88
    assert_eq!(batches, 1);
    assert_eq!(rows_out, 7);
    assert_eq!(packer.table().rows(), 1);
}

#[test]
fn cheap_estimate_alone_can_exceed_the_threshold() {
    let mut packer = Packer::with_thresholds(&schema(), 27, 1_000);
    push_row(&mut packer, 1, Some("ab"));
    assert_eq!(packer.table().mem_estimate(), 14);
    assert!(matches!(packer.consider_flushing(), Ok(None)));
    push_row(&mut packer, 2, Some("cd"));
    assert_eq!(packer.table().mem_estimate(), 28);
    let batch = packer.consider_flushing().unwrap().unwrap();
    assert_eq!(batch[1].len(), 2);
}

#[test]
fn rows_past_the_threshold_give_a_batch() {
    let mut packer = Packer::new(&[TableField::new("flag", Kind::Bool, false)]);
    for _ in 0..FLUSH_ROWS {
        packer.table().push_bool(0, Some(true)).unwrap();
    }
    assert!(matches!(packer.consider_flushing(), Ok(None)));
    packer.table().push_bool(0, Some(false)).unwrap();
    let batch = packer.consider_flushing().unwrap().unwrap();
    assert_eq!(batch[0].len(), FLUSH_ROWS + 1);
    assert!(matches!(packer.consider_flushing(), Ok(None)));
    assert!(matches!(packer.finish(), Ok(None)));
}

#[test]
fn columns_of_different_lengths_are_refused() {
    let mut packer = Packer::with_thresholds(&schema(), 0, 0);
    packer.table().push_primitive(0, Primitive::I64(Some(1))).unwrap();
    assert!(matches!(packer.consider_flushing(), Err(PackError::SchemaViolation(Violation::Uneven { column: 1, expected: 1, found: 0 }))));
    assert!(matches!(packer.flush(), Err(PackError::SchemaViolation(Violation::Uneven { column: 1, expected: 1, found: 0 }))));
    assert_eq!(packer.table().rows(), 1);
    assert!(matches!(packer.finish(), Err(PackError::SchemaViolation(Violation::Uneven { column: 1, expected: 1, found: 0 }))));
}

#[test]
fn packer_finds_its_fields_by_name() {
    let packer = Packer::new(&schema());
    let (at, field) = packer.find_field("name").unwrap();
    assert_eq!(at, 1);
    assert!(field.nullable);
    assert!(packer.find_field("other").is_none());
}

#[test]
fn packer_flushes_whatever_table_it_is_given() {
    let mut packer = Packer::with_thresholds(&schema(), usize::MAX, 0);
    assert!(packer.is_wf());
    *packer.table() = pack_it::Table::with_capacity(&[Kind::Bool], 0);
    assert!(packer.is_wf());
    packer.table().push_bool(0, Some(true)).unwrap();
    let batch = packer.consider_flushing().unwrap().unwrap();
    assert_eq!(batch.len(), 1);
    assert!(matches!(batch[0], Column::Bool(_)));
}
