use arrow2::datatypes::{DataType, TimeUnit};
use arrow2::io::parquet::write::Encoding;
use pack_it::schema::find_field;
use pack_it::{Kind, PackError, TableField};

const KINDS: [Kind; 8] = [
    Kind::Bool,
    Kind::Uuid,
    Kind::U8,
    Kind::I32,
    Kind::I64,
    Kind::F64,
    Kind::String,
    Kind::TimestampSecsZ,
];

#[test]
fn every_kind_is_written_as_its_arrow_type() {
    assert_eq!(Kind::Bool.to_arrow(), DataType::Boolean);
    assert_eq!(Kind::U8.to_arrow(), DataType::UInt8);
    assert_eq!(Kind::I32.to_arrow(), DataType::Int32);
    assert_eq!(Kind::I64.to_arrow(), DataType::Int64);
    assert_eq!(Kind::F64.to_arrow(), DataType::Float64);
    assert_eq!(Kind::String.to_arrow(), DataType::Utf8);
    assert_eq!(Kind::Uuid.to_arrow(), DataType::FixedSizeBinary(16));
    assert_eq!(Kind::TimestampSecsZ.to_arrow(), DataType::Timestamp(TimeUnit::Second, None));
}

#[test]
fn every_kind_is_recovered_from_its_arrow_type() {
    for kind in KINDS {
        assert_eq!(Kind::from_arrow(&kind.to_arrow()), Ok(kind));
    }
}

#[test]
fn arrow_types_without_a_kind_are_unsupported() {
    let strangers = [
        DataType::Null,
        DataType::Int8,
        DataType::Int16,
        DataType::UInt16,
        DataType::UInt32,
        DataType::UInt64,
        DataType::Float32,
        DataType::LargeUtf8,
        DataType::Binary,
        DataType::Date32,
        DataType::FixedSizeBinary(8),
        DataType::FixedSizeBinary(0),
        DataType::Timestamp(TimeUnit::Millisecond, None),
        DataType::Timestamp(TimeUnit::Microsecond, None),
        DataType::Timestamp(TimeUnit::Nanosecond, None),
        DataType::Timestamp(TimeUnit::Second, Some("UTC".to_string())),
    ];
    for stranger in strangers {
        assert_eq!(Kind::from_arrow(&stranger), Err(PackError::ExternalTypeUnsupported { field: 0 }));
    }
}

#[test]
fn floating_point_defaults_to_byte_stream_split_and_the_rest_to_plain() {
    for kind in KINDS {
        let expected = if matches!(kind, Kind::F64) {
            Encoding::ByteStreamSplit
        } else {
            Encoding::Plain
        };
        assert_eq!(kind.default_encoding(), expected);
    }
}

#[test]
fn new_field_takes_the_default_encoding_of_its_kind() {
    let price = TableField::new("price", Kind::F64, true);
    assert_eq!(price.name, "price");
    assert!(matches!(price.kind, Kind::F64));
    assert!(price.nullable);
    assert_eq!(price.encoding, Encoding::ByteStreamSplit);
    let id = TableField::new("id", Kind::I64, false);
    assert!(!id.nullable);
    assert_eq!(id.encoding, Encoding::Plain);
}

#[test]
fn field_is_written_with_its_name_type_and_nullability() {
    let field = TableField::new("when", Kind::TimestampSecsZ, true).to_arrow();
    assert_eq!(field.name, "when");
    assert_eq!(field.data_type, DataType::Timestamp(TimeUnit::Second, None));
    assert!(field.is_nullable);
    assert!(field.metadata.is_empty());
    let other = TableField::new("id", Kind::Uuid, false).to_arrow();
    assert_eq!(other.data_type, DataType::FixedSizeBinary(16));
    assert!(!other.is_nullable);
}

#[test]
fn duplicate_copies_every_part_of_a_field() {
    let mut field = TableField::new("n", Kind::I32, true);
    field.encoding = Encoding::DeltaBinaryPacked;
    let copy = field.duplicate();
    assert_eq!(copy.name, "n");
    assert!(matches!(copy.kind, Kind::I32));
    assert!(copy.nullable);
    assert_eq!(copy.encoding, Encoding::DeltaBinaryPacked);
}

#[test]
fn find_field_returns_the_first_field_of_the_name() {
    let schema = vec![
        TableField::new("id", Kind::I64, false),
        TableField::new("name", Kind::String, true),
        TableField::new("name", Kind::Bool, false),
    ];
    let (at, field) = find_field(&schema, "name").unwrap();
    assert_eq!(at, 1);
    assert!(matches!(field.kind, Kind::String));
    assert_eq!(find_field(&schema, "id").map(|found| found.0), Some(0));
    assert!(find_field(&schema, "Name").is_none());
    assert!(find_field(&schema, "").is_none());
    assert!(find_field(&[], "id").is_none());
}
