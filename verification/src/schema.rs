//! The closed set of column kinds, their mapping to arrow2's types, and
//! the fields of a schema.

use vstd::prelude::*;
use arrow2::datatypes::{DataType, Field};
use arrow2::io::parquet::write::Encoding;
use crate::datatypes::{
    data_type_from, data_type_shape, encoding_from, field_name, field_new, field_notes,
    field_nullable, field_shape, scheme_of, shape_of, Scheme, Shape, Unit,
};
use crate::error::PackError;

verus! {

/// The element types that a column can have.
#[derive(Clone, Copy, Debug, PartialEq, Eq, Structural)]
pub enum Kind {
    Bool,
    Uuid,
    U8,
    I32,
    I64,
    F64,
    String,
    TimestampSecsZ,
}

impl Kind {
    /// The shape of the arrow2 type that the kind is written as.
    pub open spec fn shape(self) -> Shape {
        match self {
            Kind::Bool => Shape::Boolean,
            Kind::U8 => Shape::UInt8,
            Kind::I32 => Shape::Int32,
            Kind::I64 => Shape::Int64,
            Kind::F64 => Shape::Float64,
            Kind::String => Shape::Utf8,
            Kind::Uuid => Shape::FixedSizeBinary(16),
            Kind::TimestampSecsZ => Shape::Timestamp(Unit::Second, None),
        }
    }

    /// The kind that stands for a shape, if there is one.
    pub open spec fn of_shape(s: Shape) -> Option<Kind> {
        match s {
            Shape::Boolean => Some(Kind::Bool),
            Shape::UInt8 => Some(Kind::U8),
            Shape::Int32 => Some(Kind::I32),
            Shape::Int64 => Some(Kind::I64),
            Shape::Float64 => Some(Kind::F64),
            Shape::Utf8 => Some(Kind::String),
            Shape::FixedSizeBinary(width) => if width == 16 {
                Some(Kind::Uuid)
            } else {
                None
            },
            Shape::Timestamp(unit, zone) => if unit == Unit::Second && zone is None {
                Some(Kind::TimestampSecsZ)
            } else {
                None
            },
            Shape::Other => None,
        }
    }

    /// The encoding that a column of the kind gets unless told otherwise:
    /// byte-stream-split for floating point, plain for everything else.
    pub open spec fn scheme(self) -> Scheme {
        match self {
            Kind::F64 => Scheme::ByteStreamSplit,
            _ => Scheme::Plain,
        }
    }

    /// The arrow2 type that the kind is written as.
    pub fn to_arrow(self) -> (d: DataType)
        ensures
            shape_of(d) == self.shape(),
    {
        let shape = match self {
            Kind::Bool => Shape::Boolean,
            Kind::U8 => Shape::UInt8,
            Kind::I32 => Shape::Int32,
            Kind::I64 => Shape::Int64,
            Kind::F64 => Shape::Float64,
            Kind::String => Shape::Utf8,
            Kind::Uuid => Shape::FixedSizeBinary(16),
            Kind::TimestampSecsZ => Shape::Timestamp(Unit::Second, None),
        };
        data_type_from(shape)
    }

    /// The kind that stands for an arrow2 type. A type without one is
    /// refused with `ExternalTypeUnsupported`, at position zero: it is the
    /// one type that was asked about.
    pub fn from_arrow(arrow: &DataType) -> (r: Result<Kind, PackError>)
        ensures
            r == match Kind::of_shape(shape_of(*arrow)) {
                Some(kind) => Ok::<Kind, PackError>(kind),
                None => Err(PackError::ExternalTypeUnsupported { field: 0 }),
            },
    {
        match data_type_shape(arrow) {
            Shape::Boolean => Ok(Kind::Bool),
            Shape::UInt8 => Ok(Kind::U8),
            Shape::Int32 => Ok(Kind::I32),
            Shape::Int64 => Ok(Kind::I64),
            Shape::Float64 => Ok(Kind::F64),
            Shape::Utf8 => Ok(Kind::String),
            Shape::FixedSizeBinary(width) => if width == 16 {
                Ok(Kind::Uuid)
            } else {
                Err(PackError::ExternalTypeUnsupported { field: 0 })
            },
            Shape::Timestamp(unit, zone) => if unit == Unit::Second && zone.is_none() {
                Ok(Kind::TimestampSecsZ)
            } else {
                Err(PackError::ExternalTypeUnsupported { field: 0 })
            },
            Shape::Other => Err(PackError::ExternalTypeUnsupported { field: 0 }),
        }
    }

    /// The encoding that a column of the kind gets unless told otherwise.
    pub fn default_encoding(&self) -> (e: Encoding)
        ensures
            scheme_of(e) == self.scheme(),
    {
        match self {
            Kind::F64 => encoding_from(Scheme::ByteStreamSplit),
            _ => encoding_from(Scheme::Plain),
        }
    }
}

/// Every kind is recovered from the type it is written as.
pub proof fn lemma_kind_round_trip(kind: Kind)
    ensures
        Kind::of_shape(kind.shape()) == Some(kind),
{
}

/// One column of a schema. The order of the fields of a schema is the order
/// of the columns of its tables and of the output.
pub struct TableField {
    pub name: String,
    pub kind: Kind,
    pub nullable: bool,
    pub encoding: Encoding,
}

impl TableField {
    /// A field with the default encoding of its kind.
    pub fn new(name: &str, kind: Kind, nullable: bool) -> (f: TableField)
        ensures
            f.name@ == name@,
            f.kind == kind,
            f.nullable == nullable,
            scheme_of(f.encoding) == kind.scheme(),
    {
        TableField { name: name.to_owned(), kind, nullable, encoding: kind.default_encoding() }
    }

    /// The field as arrow2 writes it: its name, the type of its kind, and
    /// its nullability, without metadata.
    pub fn to_arrow(&self) -> (f: Field)
        ensures
            field_name(f) == self.name@,
            field_shape(f) == self.kind.shape(),
            field_nullable(f) == self.nullable,
            field_notes(f) == 0,
    {
        field_new(self.name.clone(), self.kind.to_arrow(), self.nullable)
    }

    /// A copy of the field.
    pub fn duplicate(&self) -> (f: TableField)
        ensures
            f == *self,
    {
        TableField {
            name: self.name.clone(),
            kind: self.kind,
            nullable: self.nullable,
            encoding: self.encoding,
        }
    }
}

/// The names of the fields of a schema, in order.
pub open spec fn names_of(schema: Seq<TableField>) -> Seq<Seq<char>> {
    schema.map_values(|f: TableField| f.name@)
}

/// Whether `at` is the first position of `name` in `names`.
pub open spec fn is_first(names: Seq<Seq<char>>, name: Seq<char>, at: int) -> bool {
    &&& 0 <= at < names.len()
    &&& names[at] == name
    &&& forall|j: int| 0 <= j < at ==> names[j] != name
}

/// The first field of the given name, with its position.
pub fn find_field<'a>(schema: &'a [TableField], name: &str) -> (r: Option<(usize, &'a TableField)>)
    ensures
        match r {
            Some((at, field)) => is_first(names_of(schema@), name@, at as int) && *field
                == schema@[at as int],
            None => !names_of(schema@).contains(name@),
        },
{
    let wanted = name.to_owned();
    let mut i: usize = 0;
    while i < schema.len()
        invariant
            i <= schema.len(),
            wanted@ == name@,
            forall|j: int| 0 <= j < i ==> names_of(schema@)[j] != name@,
        decreases schema.len() - i,
    {
        if schema[i].name == wanted {
            return Some((i, &schema[i]));
        }
        i += 1;
    }
    None
}

} // verus!
