//! The arrow2 types that a schema is written in: data types, fields and
//! encodings.
//!
//! Everything in this module is a declaration of an arrow2 type, a name for
//! what such a value holds, or a thin conversion between an arrow2 enum and
//! an enum of this library, whose contract is taken on trust. Nothing here
//! is proved.

use vstd::prelude::*;
use arrow2::datatypes::{DataType, Field, TimeUnit};
use arrow2::io::parquet::write::Encoding;

verus! {

/// arrow2's `DataType`, opaque to the proofs.
#[verifier::external_type_specification]
#[verifier::external_body]
pub struct ExDataType(DataType);

/// arrow2's `Encoding`, opaque to the proofs.
#[verifier::external_type_specification]
#[verifier::external_body]
pub struct ExEncoding(Encoding);

/// The resolution of a timestamp: the variants of `TimeUnit`.
#[derive(Clone, Copy, Debug, PartialEq, Eq, Structural)]
pub enum Unit {
    Second,
    Millisecond,
    Microsecond,
    Nanosecond,
}

/// What the library tells apart in an arrow2 `DataType`.
#[derive(Debug)]
pub enum Shape {
    Boolean,
    UInt8,
    Int32,
    Int64,
    Float64,
    Utf8,
    /// Binary values of the given width in bytes.
    FixedSizeBinary(usize),
    /// A timestamp of the given resolution, with its time zone if it has
    /// one.
    Timestamp(Unit, Option<String>),
    /// Any other type.
    Other,
}

/// How the pages of a column are encoded: the variants of `Encoding`.
#[derive(Clone, Copy, Debug, PartialEq, Eq, Structural)]
pub enum Scheme {
    Plain,
    PlainDictionary,
    Rle,
    BitPacked,
    DeltaBinaryPacked,
    DeltaLengthByteArray,
    DeltaByteArray,
    RleDictionary,
    ByteStreamSplit,
}

/// arrow2's `Field`, opaque to the proofs.
#[verifier::external_type_specification]
#[verifier::external_body]
pub struct ExField(Field);

/// The name of an arrow2 `Field`.
pub uninterp spec fn field_name(f: Field) -> Seq<char>;

/// The shape of the type of an arrow2 `Field`.
pub uninterp spec fn field_shape(f: Field) -> Shape;

/// Whether an arrow2 `Field` admits nulls.
pub uninterp spec fn field_nullable(f: Field) -> bool;

/// The number of entries in the metadata of an arrow2 `Field`.
pub uninterp spec fn field_notes(f: Field) -> nat;

/// `Field::new`: a field of the given name, type and nullability, without
/// metadata.
#[verifier::external_body]
pub(crate) fn field_new(name: String, data_type: DataType, nullable: bool) -> (f: Field)
    ensures
        field_name(f) == name@,
        field_shape(f) == shape_of(data_type),
        field_nullable(f) == nullable,
        field_notes(f) == 0,
{
    Field::new(name, data_type, nullable)
}

/// The shape of a `DataType`: what `data_type_shape` returns for it.
pub uninterp spec fn shape_of(d: DataType) -> Shape;

/// The variant of an `Encoding`.
pub uninterp spec fn scheme_of(e: Encoding) -> Scheme;

/// Tells the variants of `DataType` apart, one arm for each that the
/// library knows and for each `TimeUnit` of a timestamp, moving the fields
/// over unchanged. Nothing is decided here.
#[verifier::external_body]
pub(crate) fn data_type_shape(d: &DataType) -> (s: Shape)
    ensures
        s == shape_of(*d),
{
    match d {
        DataType::Boolean => Shape::Boolean,
        DataType::UInt8 => Shape::UInt8,
        DataType::Int32 => Shape::Int32,
        DataType::Int64 => Shape::Int64,
        DataType::Float64 => Shape::Float64,
        DataType::Utf8 => Shape::Utf8,
        DataType::FixedSizeBinary(width) => Shape::FixedSizeBinary(*width),
        DataType::Timestamp(TimeUnit::Second, z) => Shape::Timestamp(Unit::Second, z.clone()),
        DataType::Timestamp(TimeUnit::Millisecond, z) => Shape::Timestamp(Unit::Millisecond, z.clone()),
        DataType::Timestamp(TimeUnit::Microsecond, z) => Shape::Timestamp(Unit::Microsecond, z.clone()),
        DataType::Timestamp(TimeUnit::Nanosecond, z) => Shape::Timestamp(Unit::Nanosecond, z.clone()),
        _ => Shape::Other,
    }
}

/// Builds the `DataType` of a shape, one variant for each shape and for
/// each resolution of a timestamp.
#[verifier::external_body]
pub(crate) fn data_type_from(s: Shape) -> (d: DataType)
    requires
        s !is Other,
    ensures
        shape_of(d) == s,
{
    match s {
        Shape::Boolean => DataType::Boolean,
        Shape::UInt8 => DataType::UInt8,
        Shape::Int32 => DataType::Int32,
        Shape::Int64 => DataType::Int64,
        Shape::Float64 => DataType::Float64,
        Shape::Utf8 => DataType::Utf8,
        Shape::FixedSizeBinary(width) => DataType::FixedSizeBinary(width),
        Shape::Timestamp(Unit::Second, z) => DataType::Timestamp(TimeUnit::Second, z),
        Shape::Timestamp(Unit::Millisecond, z) => DataType::Timestamp(TimeUnit::Millisecond, z),
        Shape::Timestamp(Unit::Microsecond, z) => DataType::Timestamp(TimeUnit::Microsecond, z),
        Shape::Timestamp(Unit::Nanosecond, z) => DataType::Timestamp(TimeUnit::Nanosecond, z),
        Shape::Other => DataType::Null,
    }
}

/// `<DataType as Clone>::clone`: the copy has the shape of the type it was
/// made from.
#[verifier::external_body]
pub(crate) fn data_type_clone(d: &DataType) -> (r: DataType)
    ensures
        shape_of(r) == shape_of(*d),
{
    d.clone()
}

/// Builds the `Encoding` of a scheme, one variant for each.
#[verifier::external_body]
pub(crate) fn encoding_from(s: Scheme) -> (e: Encoding)
    ensures
        scheme_of(e) == s,
{
    match s {
        Scheme::Plain => Encoding::Plain,
        Scheme::PlainDictionary => Encoding::PlainDictionary,
        Scheme::Rle => Encoding::Rle,
        Scheme::BitPacked => Encoding::BitPacked,
        Scheme::DeltaBinaryPacked => Encoding::DeltaBinaryPacked,
        Scheme::DeltaLengthByteArray => Encoding::DeltaLengthByteArray,
        Scheme::DeltaByteArray => Encoding::DeltaByteArray,
        Scheme::RleDictionary => Encoding::RleDictionary,
        Scheme::ByteStreamSplit => Encoding::ByteStreamSplit,
    }
}

} // verus!
