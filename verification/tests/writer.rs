use arrow2::datatypes::DataType;
use arrow2::io::parquet::write::Encoding;
use pack_it::column::Primitive;
use pack_it::error::Violation;
use pack_it::writer::Ended;
use pack_it::{Kind, PackError, Table, TableField, Writer};

fn schema() -> Vec<TableField> {
    vec![
        TableField::new("id", Kind::I64, false),
        TableField::new("price", Kind::F64, true),
    ]
}

fn batch(ids: usize, prices: usize) -> Vec<pack_it::column::Column> {
    let mut table = Table::with_capacity(&[Kind::I64, Kind::F64], 0);
    for i in 0..ids {
        table.push_primitive(0, Primitive::I64(Some(i as i64))).unwrap();
    }
    for _ in 0..prices {
        table.push_primitive(1, Primitive::F64(None)).unwrap();
    }
    table.take_batch()
}

#[test]
fn channel_holds_one_batch_per_sink() {
    assert_eq!(Writer::new(2, &schema()).channel_capacity(), 2);
    assert_eq!(Writer::new(1, &schema()).channel_capacity(), 1);
}

#[test]
fn writer_describes_its_output() {
    let writer = Writer::new(1, &schema());
    let fields = writer.arrow_fields();
    assert_eq!(fields.len(), 2);
    assert_eq!(fields[0].name, "id");
    assert_eq!(fields[0].data_type, DataType::Int64);
    assert!(!fields[0].is_nullable);
    assert_eq!(fields[1].name, "price");
    assert_eq!(fields[1].data_type, DataType::Float64);
    assert!(fields[1].is_nullable);
    assert_eq!(writer.encodings(), vec![vec![Encoding::Plain], vec![Encoding::ByteStreamSplit]]);
    assert_eq!(writer.find_field("price").map(|found| found.0), Some(1));
    assert!(writer.find_field("cost").is_none());
}

#[test]
fn open_writer_takes_even_batches() {
    let writer = Writer::new(2, &schema());
    assert_eq!(writer.submit_batch(&batch(3, 3)), Ok(()));
    assert_eq!(writer.submit_batch(&batch(0, 0)), Ok(()));
    assert_eq!(writer.submit_batch(&Vec::new()), Ok(()));
    assert_eq!(
        writer.submit_batch(&batch(3, 2)),
        Err(PackError::SchemaViolation(Violation::Uneven { column: 1, expected: 3, found: 2 }))
    );
}

#[test]
fn failed_send_surfaces_the_failure_of_a_task() {
    let mut writer = Writer::new(2, &schema());
    assert_eq!(writer.send_failed(), Ok(2));
    assert_eq!(writer.next_to_join(), Some(1));
    assert_eq!(writer.joined(Ended::Returned), Ok(()));
    assert_eq!(writer.next_to_join(), Some(0));
    assert_eq!(writer.joined(Ended::Failed), Err(PackError::ThreadFailure { sink: 0 }));
    assert_eq!(writer.next_to_join(), None);
    assert_eq!(writer.submit_batch(&batch(1, 1)), Err(PackError::ChannelClosed));
    assert_eq!(writer.finish(), Err(PackError::ChannelClosed));
}

#[test]
fn failed_send_without_a_cause_is_a_closed_channel() {
    let mut writer = Writer::new(2, &schema());
    assert_eq!(writer.send_failed(), Ok(2));
    assert_eq!(writer.joined(Ended::Returned), Ok(()));
    assert_eq!(writer.joined(Ended::Returned), Err(PackError::ChannelClosed));
    let mut none = Writer::new(0, &schema());
    assert_eq!(none.send_failed(), Err(PackError::ChannelClosed));
}

#[test]
fn finish_joins_every_task_from_the_last_to_the_first() {
    let mut writer = Writer::new(3, &schema());
    assert_eq!(writer.finish(), Ok(3));
    assert_eq!(writer.submit_batch(&batch(1, 1)), Err(PackError::ChannelClosed));
    // an uneven batch is uneven before anything else
    assert_eq!(
        writer.submit_batch(&batch(0, 4)),
        Err(PackError::SchemaViolation(Violation::Uneven { column: 1, expected: 0, found: 4 }))
    );
    let mut order = Vec::new();
    while let Some(task) = writer.next_to_join() {
        order.push(task);
        assert_eq!(writer.joined(Ended::Returned), Ok(()));
    }
    assert_eq!(order, vec![2, 1, 0]);
}

#[test]
fn finish_stops_at_the_first_task_that_failed() {
    let mut writer = Writer::new(2, &schema());
    assert_eq!(writer.finish(), Ok(2));
    assert_eq!(writer.joined(Ended::Failed), Err(PackError::ThreadFailure { sink: 1 }));
    assert_eq!(writer.next_to_join(), Some(0));
}

#[test]
fn writer_without_sinks_has_nothing_to_finish() {
    let mut writer = Writer::new(0, &schema());
    assert_eq!(writer.finish(), Err(PackError::ChannelClosed));
}

#[test]
fn third_batch_waits_until_a_task_drains_a_slot() {
    let writer = Writer::new(2, &schema());
    let (tx, rx) = crossbeam_channel::bounded(writer.channel_capacity());
    assert!(tx.try_send(batch(1, 1)).is_ok());
    assert!(tx.try_send(batch(2, 2)).is_ok());
    assert!(matches!(tx.try_send(batch(3, 3)), Err(crossbeam_channel::TrySendError::Full(_))));
    assert_eq!(rx.recv().unwrap()[0].len(), 1);
    assert!(tx.try_send(batch(3, 3)).is_ok());
    assert!(matches!(tx.try_send(batch(4, 4)), Err(crossbeam_channel::TrySendError::Full(_))));
}
