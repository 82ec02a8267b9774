use std::io::Cursor;

use arrow2::array::{Array, BooleanArray, PrimitiveArray, Utf8Array};
use arrow2::chunk::Chunk;
use arrow2::datatypes::Schema;
use arrow2::error::Error;
use arrow2::io::parquet::read;
use arrow2::io::parquet::write::{
    CompressionOptions, FileWriter, RowGroupIterator, Version, WriteOptions,
};
use pack_it::builders::{I64Array, StrArray};
use pack_it::column::{Column, Primitive};
use pack_it::repack::{table_schema, Action, Applied, Op, Repack, SourceField};
use pack_it::{Kind, Packer, TableField, Writer};

fn boxed(column: Column) -> Box<dyn Array> {
    match column {
        Column::Bool(a) => a.boxed(),
        Column::U8(a) => a.inner.boxed(),
        Column::I32(a) => a.inner.boxed(),
        Column::I64(a) => a.inner.boxed(),
        Column::F64(a) => a.inner.boxed(),
        Column::Utf8(a) => a.inner.boxed(),
        Column::Fsb(a) => a.boxed(),
    }
}

fn encode(writer: &Writer, batches: Vec<Vec<Column>>) -> Vec<u8> {
    let schema = Schema::from(writer.arrow_fields());
    let options = WriteOptions {
        write_statistics: true,
        compression: CompressionOptions::Uncompressed,
        version: Version::V2,
        data_pagesize_limit: None,
    };
    let chunks: Vec<Result<Chunk<Box<dyn Array>>, Error>> = batches
        .into_iter()
        .map(|batch| Chunk::try_new(batch.into_iter().map(boxed).collect()))
        .collect();
    let groups =
        RowGroupIterator::try_new(chunks.into_iter(), &schema, options, writer.encodings()).unwrap();
    let mut file = FileWriter::try_new(Vec::new(), schema, options).unwrap();
    for group in groups {
        file.write(group.unwrap()).unwrap();
    }
    file.end(None).unwrap();
    file.into_inner()
}

fn decode(bytes: Vec<u8>) -> (Schema, Vec<Chunk<Box<dyn Array>>>) {
    let mut cursor = Cursor::new(bytes);
    let metadata = read::read_metadata(&mut cursor).unwrap();
    let schema = read::infer_schema(&metadata).unwrap();
    let reader =
        read::FileReader::new(cursor, metadata.row_groups, schema.clone(), None, None, None);
    (schema, reader.map(|chunk| chunk.unwrap()).collect())
}

fn schema() -> Vec<TableField> {
    vec![
        TableField::new("id", Kind::I64, false),
        TableField::new("name", Kind::String, true),
        TableField::new("active", Kind::Bool, false),
    ]
}

#[test]
fn rows_come_back_with_their_values_and_nulls() {
    let schema = schema();
    let writer = Writer::new(1, &schema);
    let mut packer = Packer::new(&schema);
    packer.table().push_primitive(0, Primitive::I64(Some(1))).unwrap();
    packer.table().push_str(1, Some("a")).unwrap();
    packer.table().push_bool(2, Some(true)).unwrap();
    packer.table().push_primitive(0, Primitive::I64(Some(2))).unwrap();
    packer.table().push_str(1, None).unwrap();
    packer.table().push_bool(2, Some(false)).unwrap();
    packer.table().finish_bulk_push().unwrap();
    assert!(packer.consider_flushing().unwrap().is_none());
    let batch = packer.finish().unwrap().unwrap();
    assert_eq!(writer.submit_batch(&batch), Ok(()));

    let (read_schema, groups) = decode(encode(&writer, vec![batch]));
    let names: Vec<&str> = read_schema.fields.iter().map(|f| f.name.as_str()).collect();
    assert_eq!(names, vec!["id", "name", "active"]);
    assert_eq!(groups.len(), 1);
    let columns = groups[0].arrays();
    let ids = columns[0].as_any().downcast_ref::<PrimitiveArray<i64>>().unwrap();
    assert_eq!(ids.iter().map(|v| v.copied()).collect::<Vec<_>>(), vec![Some(1), Some(2)]);
    let names = columns[1].as_any().downcast_ref::<Utf8Array<i32>>().unwrap();
    assert_eq!(names.iter().collect::<Vec<_>>(), vec![Some("a"), None]);
    let active = columns[2].as_any().downcast_ref::<BooleanArray>().unwrap();
    assert_eq!(active.iter().collect::<Vec<_>>(), vec![Some(true), Some(false)]);
}

#[test]
fn packer_without_pushes_writes_no_row_group() {
    let schema = schema();
    let writer = Writer::new(1, &schema);
    let packer = Packer::new(&schema);
    let batches: Vec<Vec<Column>> = packer.finish().unwrap().into_iter().collect();
    assert!(batches.is_empty());
    let (read_schema, groups) = decode(encode(&writer, batches));
    assert_eq!(read_schema.fields.len(), 3);
    assert!(groups.is_empty());
}

#[test]
fn every_flush_becomes_one_row_group() {
    let schema = vec![TableField::new("n", Kind::I32, false)];
    let writer = Writer::new(1, &schema);
    let mut packer = Packer::with_thresholds(&schema, usize::MAX, 2);
    let mut batches = Vec::new();
    for n in 0..7 {
        packer.table().push_primitive(0, Primitive::I32(Some(n))).unwrap();
        if let Some(batch) = packer.consider_flushing().unwrap() {
            batches.push(batch);
        }
    }
    batches.extend(packer.finish().unwrap());
    let (_, groups) = decode(encode(&writer, batches));
    let sizes: Vec<usize> = groups.iter().map(|group| group.len()).collect();
    assert_eq!(sizes, vec![3, 3, 1]);
}

#[test]
fn copied_columns_come_back_as_they_went_in() {
    let source = vec![
        SourceField {
            name: "id".to_string(),
            data_type: arrow2::datatypes::DataType::Int64,
            nullable: false,
        },
        SourceField {
            name: "name".to_string(),
            data_type: arrow2::datatypes::DataType::Utf8,
            nullable: true,
        },
    ];
    let repack = Repack {
        ops: vec![
            Op { input: "name".to_string(), action: Action::Copy },
            Op { input: "id".to_string(), action: Action::Copy },
        ],
    };
    let schema = table_schema(&repack.derive_schema(&source).unwrap()).unwrap();
    let writer = Writer::new(1, &schema);
    let mut packer = Packer::new(&schema);
    let ids = Column::I64(I64Array { inner: PrimitiveArray::from([Some(7i64), Some(8), Some(9)]) });
    let names =
        Column::Utf8(StrArray { inner: Utf8Array::<i32>::from([Some("x"), Some(""), Some("zed")]) });
    assert!(matches!(repack.apply(0, Some(&names), &mut packer), Ok(Applied::Copied(0))));
    assert!(matches!(repack.apply(1, Some(&ids), &mut packer), Ok(Applied::Copied(1))));
    packer.table().finish_bulk_push().unwrap();
    let batch = packer.finish().unwrap().unwrap();
    let (read_schema, groups) = decode(encode(&writer, vec![batch]));
    assert_eq!(read_schema.fields[0].name, "name");
    assert_eq!(read_schema.fields[1].name, "id");
    let columns = groups[0].arrays();
    let names = columns[0].as_any().downcast_ref::<Utf8Array<i32>>().unwrap();
    assert_eq!(names.iter().collect::<Vec<_>>(), vec![Some("x"), Some(""), Some("zed")]);
    // the columns of a remapped file do not admit nulls
    assert!(read_schema.fields.iter().all(|f| !f.is_nullable));
    let ids = columns[1].as_any().downcast_ref::<PrimitiveArray<i64>>().unwrap();
    assert_eq!(ids.iter().map(|v| v.copied()).collect::<Vec<_>>(), vec![Some(7), Some(8), Some(9)]);
}
