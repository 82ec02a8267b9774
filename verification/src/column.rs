//! One column of a table: a typed, null-aware builder, and the finished
//! array that it becomes.

use vstd::prelude::*;
use arrow2::array::{BooleanArray, FixedSizeBinaryArray, MutableBooleanArray, MutableFixedSizeBinaryArray};
use crate::builders::{
    FloatArray, FloatBuilder, I32Array, I32Builder, I64Array, I64Builder, StrArray, StrBuilder,
    U8Array, U8Builder, blob_bytes, bool_array_items, bool_array_len, bool_extend, bool_finish,
    bool_items, bool_len, bool_masked, bool_push, bool_validity_len, bool_with_capacity,
    capacity_ok, float_array_items, float_array_len, float_extend, float_finish, float_items,
    float_len, float_masked, float_push, float_validity_len, float_with_capacity,
    fsb_array_items, fsb_array_len, fsb_array_width, fsb_finish, fsb_items, fsb_len,
    fsb_masked, fsb_size, fsb_try_push, fsb_validity_len, fsb_values_len, fsb_width,
    fsb_with_capacity, i32_array_items, i32_array_len, i32_extend, i32_finish, i32_items,
    i32_len, i32_masked, i32_push, i32_validity_len, i32_with_capacity, i64_array_items,
    i64_array_len, i64_extend, i64_finish, i64_items, i64_len, i64_masked, i64_push,
    i64_validity_len, i64_with_capacity, str_array_is_valid, str_array_items, str_array_len,
    str_array_value, str_end, str_finish, str_items, str_last_offset, str_len, str_masked,
    str_offsets_len, str_push, str_validity_len, str_value_bytes, str_values_len,
    str_with_capacity, text_bytes, text_chars, u8_array_items, u8_array_len, u8_finish,
    u8_items, u8_len, u8_masked, u8_push, u8_validity_len, u8_with_capacity, utf8_len,
};
use crate::error::Refusal;
use crate::mem::{saturated, saturating_product, MemUsage};
use crate::schema::Kind;

verus! {

/// One entry of a column. A floating point value is given by its IEEE-754
/// bit pattern.
pub enum Cell {
    Null,
    Bool(bool),
    U8(u8),
    I32(i32),
    I64(i64),
    F64(u64),
    Str(Seq<char>),
    Bytes(Seq<u8>),
}

/// A fixed-width value for [`VarArray::push_primitive`]. A floating point
/// value is given by its IEEE-754 bit pattern.
#[derive(Clone, Copy, Debug)]
pub enum Primitive {
    U8(Option<u8>),
    I32(Option<i32>),
    I64(Option<i64>),
    F64(Option<u64>),
}

impl Primitive {
    /// The entry that the value becomes.
    pub open spec fn cell(self) -> Cell {
        match self {
            Primitive::U8(v) => u8_cell(v),
            Primitive::I32(v) => i32_cell(v),
            Primitive::I64(v) => i64_cell(v),
            Primitive::F64(v) => float_cell(v),
        }
    }

    /// The bytes that one value of this width takes.
    pub open spec fn width(self) -> nat {
        match self {
            Primitive::U8(_) => 1,
            Primitive::I32(_) => 4,
            Primitive::I64(_) => 8,
            Primitive::F64(_) => 8,
        }
    }
}

pub open spec fn bool_cell(v: Option<bool>) -> Cell {
    match v {
        Some(b) => Cell::Bool(b),
        None => Cell::Null,
    }
}

pub open spec fn u8_cell(v: Option<u8>) -> Cell {
    match v {
        Some(n) => Cell::U8(n),
        None => Cell::Null,
    }
}

pub open spec fn i32_cell(v: Option<i32>) -> Cell {
    match v {
        Some(n) => Cell::I32(n),
        None => Cell::Null,
    }
}

pub open spec fn i64_cell(v: Option<i64>) -> Cell {
    match v {
        Some(n) => Cell::I64(n),
        None => Cell::Null,
    }
}

pub open spec fn float_cell(v: Option<u64>) -> Cell {
    match v {
        Some(bits) => Cell::F64(bits),
        None => Cell::Null,
    }
}

pub open spec fn str_cell(v: Option<Seq<char>>) -> Cell {
    match v {
        Some(s) => Cell::Str(s),
        None => Cell::Null,
    }
}

pub open spec fn bytes_cell(v: Option<Seq<u8>>) -> Cell {
    match v {
        Some(s) => Cell::Bytes(s),
        None => Cell::Null,
    }
}

/// The number of bytes that texts take together in UTF-8, nulls counted as
/// empty.
pub open spec fn texts_bytes(texts: Seq<Option<Seq<char>>>) -> nat
    decreases texts.len(),
{
    if texts.len() == 0 {
        0
    } else {
        texts_bytes(texts.drop_last()) + match texts.last() {
            Some(text) => utf8_len(text),
            None => 0,
        }
    }
}

/// Whether entry `k` of `texts` is the first that does not fit into `room`
/// bytes after the entries before it.
pub open spec fn first_misfit(texts: Seq<Option<Seq<char>>>, room: int, k: int) -> bool {
    &&& 0 <= k < texts.len()
    &&& texts_bytes(texts.take(k)) <= room < texts_bytes(texts.take(k + 1))
}

/// The bytes of text that a text builder still takes: those up to the last
/// offset there is, `i32::MAX`, where its value buffer ends at its last
/// offset; none where it does not.
pub open spec fn str_space(a: StrBuilder) -> nat {
    if str_value_bytes(a) == str_end(a) && str_end(a) <= i32::MAX {
        (i32::MAX - str_end(a)) as nat
    } else {
        0
    }
}

/// The bytes of a validity bitmap over `len` entries, if there is one.
pub open spec fn mask_bytes(masked: bool, len: nat) -> nat {
    if masked {
        len / 8
    } else {
        0
    }
}

/// The bytes of `n` 32-bit values.
pub open spec fn u32_bytes(n: nat) -> nat {
    n * 4
}

/// The bytes of `n` 64-bit values.
pub open spec fn u64_bytes(n: nat) -> nat {
    n * 8
}

/// The builder of one column. The variant fixes the concrete type of the
/// column's values; a push of another type is refused.
pub enum VarArray {
    Bool(MutableBooleanArray),
    U8(U8Builder),
    I32(I32Builder),
    I64(I64Builder),
    F64(FloatBuilder),
    Utf8(StrBuilder),
    Fsb(MutableFixedSizeBinaryArray),
}

/// A finished column: what a builder becomes when its batch is taken.
pub enum Column {
    Bool(BooleanArray),
    U8(U8Array),
    I32(I32Array),
    I64(I64Array),
    F64(FloatArray),
    Utf8(StrArray),
    Fsb(FixedSizeBinaryArray),
}

impl VarArray {
    /// The entries of the column, oldest first.
    pub open spec fn cells(self) -> Seq<Cell> {
        match self {
            VarArray::Bool(a) => bool_items(a).map_values(|v: Option<bool>| bool_cell(v)),
            VarArray::U8(a) => u8_items(a).map_values(|v: Option<u8>| u8_cell(v)),
            VarArray::I32(a) => i32_items(a).map_values(|v: Option<i32>| i32_cell(v)),
            VarArray::I64(a) => i64_items(a).map_values(|v: Option<i64>| i64_cell(v)),
            VarArray::F64(a) => float_items(a).map_values(|v: Option<u64>| float_cell(v)),
            VarArray::Utf8(a) => str_items(a).map_values(|v: Option<Seq<char>>| str_cell(v)),
            VarArray::Fsb(a) => fsb_items(a).map_values(|v: Option<Seq<u8>>| bytes_cell(v)),
        }
    }

    /// Whether the column has allocated its validity bitmap, which it does
    /// at its first null.
    pub open spec fn masked(self) -> bool {
        match self {
            VarArray::Bool(a) => bool_masked(a),
            VarArray::U8(a) => u8_masked(a),
            VarArray::I32(a) => i32_masked(a),
            VarArray::I64(a) => i64_masked(a),
            VarArray::F64(a) => float_masked(a),
            VarArray::Utf8(a) => str_masked(a),
            VarArray::Fsb(a) => fsb_masked(a),
        }
    }

    /// Whether the column is the builder that a column of `kind` starts
    /// with. Timestamps are built as 64-bit integers.
    pub open spec fn holds(self, kind: Kind) -> bool {
        match kind {
            Kind::Bool => self is Bool,
            Kind::U8 => self is U8,
            Kind::I32 => self is I32,
            Kind::I64 => self is I64,
            Kind::TimestampSecsZ => self is I64,
            Kind::F64 => self is F64,
            Kind::String => self is Utf8,
            Kind::Uuid => self matches VarArray::Fsb(a) && fsb_width(a) == 16,
        }
    }

    /// The last offset of a text column: the bytes that its entries take.
    /// Zero for any other column.
    pub open spec fn text_end(self) -> nat {
        match self {
            VarArray::Utf8(a) => str_end(a),
            _ => 0,
        }
    }

    /// The bytes in the value buffer of a text column, which include those
    /// of refused texts. Zero for any other column.
    pub open spec fn text_buffer(self) -> nat {
        match self {
            VarArray::Utf8(a) => str_value_bytes(a),
            _ => 0,
        }
    }

    /// Whether two columns have the same concrete type.
    pub open spec fn same_type(self, other: VarArray) -> bool {
        match (self, other) {
            (VarArray::Bool(_), VarArray::Bool(_)) => true,
            (VarArray::U8(_), VarArray::U8(_)) => true,
            (VarArray::I32(_), VarArray::I32(_)) => true,
            (VarArray::I64(_), VarArray::I64(_)) => true,
            (VarArray::F64(_), VarArray::F64(_)) => true,
            (VarArray::Utf8(_), VarArray::Utf8(_)) => true,
            (VarArray::Fsb(a), VarArray::Fsb(b)) => fsb_width(a) == fsb_width(b),
            _ => false,
        }
    }

    /// Whether the column is `before` with one more entry, `cell`, whose
    /// text took `bytes` bytes.
    pub open spec fn appended(self, before: VarArray, cell: Cell, bytes: nat) -> bool {
        &&& self.same_type(before)
        &&& self.cells() == before.cells().push(cell)
        &&& self.masked() == (before.masked() || cell is Null)
        &&& self.text_end() == before.text_end() + bytes
        &&& self.text_buffer() == before.text_buffer() + bytes
    }

    /// Whether the column is empty and has allocated nothing yet.
    pub open spec fn fresh(self) -> bool {
        &&& self.cells() == Seq::<Cell>::empty()
        &&& !self.masked()
        &&& self.text_end() == 0
        &&& self.text_buffer() == 0
    }

    /// The bytes of text that the column still takes. Zero for a column
    /// that is not a text column.
    pub open spec fn room(self) -> nat {
        match self {
            VarArray::Utf8(a) => str_space(a),
            _ => 0,
        }
    }

    /// Whether the column is a text column that has room for the text: a
    /// null takes no room.
    pub open spec fn admits(self, val: Option<&str>) -> bool {
        &&& self is Utf8
        &&& text_bytes(val) <= self.room()
    }

    /// Whether the column is a fixed-width binary column that the byte
    /// string fits: a null fits any width.
    pub open spec fn fits(self, val: Option<&[u8]>) -> bool {
        match self {
            VarArray::Fsb(a) => match val {
                Some(s) => s@.len() == fsb_width(a),
                None => true,
            },
            _ => false,
        }
    }

    /// Whether a value of this width can go into the column.
    pub open spec fn takes(self, val: Primitive) -> bool {
        match (self, val) {
            (VarArray::U8(_), Primitive::U8(_)) => true,
            (VarArray::I32(_), Primitive::I32(_)) => true,
            (VarArray::I64(_), Primitive::I64(_)) => true,
            (VarArray::F64(_), Primitive::F64(_)) => true,
            _ => false,
        }
    }

    /// Whether a finished column can be copied into the column: both are
    /// of the same type, and that type is text, 64-bit or 32-bit signed,
    /// boolean or floating point.
    pub open spec fn copies(self, from: Column) -> bool {
        match (self, from) {
            (VarArray::Utf8(_), Column::Utf8(_)) => true,
            (VarArray::I64(_), Column::I64(_)) => true,
            (VarArray::I32(_), Column::I32(_)) => true,
            (VarArray::Bool(_), Column::Bool(_)) => true,
            (VarArray::F64(_), Column::F64(_)) => true,
            _ => false,
        }
    }

    /// Whether the column is the text column `before` with the entries of
    /// `from` appended up to entry `k`, the first text that `before` had no
    /// room for.
    pub open spec fn cut_short(self, before: VarArray, from: Column, k: int) -> bool {
        &&& self is Utf8
        &&& 0 <= k < from.cells().len()
        &&& from.text_bytes_before(k) <= before.room() < from.text_bytes_before(k + 1)
        &&& self.cells() == before.cells() + from.cells().take(k)
        &&& self.masked() == (before.masked() || from.has_null_before(k))
        &&& self.text_end() == before.text_end() + from.text_bytes_before(k)
        &&& self.text_buffer() == before.text_buffer() + from.text_bytes_before(k)
    }

    /// Whether the column is `before` with the entries of `from` appended.
    pub open spec fn extended(self, before: VarArray, from: Column) -> bool {
        &&& self.same_type(before)
        &&& self.cells() == before.cells() + from.cells()
        &&& self.masked() == (before.masked() || from.has_null())
        &&& self.text_end() == before.text_end() + from.text_bytes()
        &&& self.text_buffer() == before.text_buffer() + from.text_bytes()
    }
}

impl Column {
    /// The entries of the column, oldest first.
    pub open spec fn cells(self) -> Seq<Cell> {
        match self {
            Column::Bool(a) => bool_array_items(a).map_values(|v: Option<bool>| bool_cell(v)),
            Column::U8(a) => u8_array_items(a).map_values(|v: Option<u8>| u8_cell(v)),
            Column::I32(a) => i32_array_items(a).map_values(|v: Option<i32>| i32_cell(v)),
            Column::I64(a) => i64_array_items(a).map_values(|v: Option<i64>| i64_cell(v)),
            Column::F64(a) => float_array_items(a).map_values(|v: Option<u64>| float_cell(v)),
            Column::Utf8(a) => str_array_items(a).map_values(|v: Option<Seq<char>>| str_cell(v)),
            Column::Fsb(a) => fsb_array_items(a).map_values(|v: Option<Seq<u8>>| bytes_cell(v)),
        }
    }

    /// Whether the column has the concrete type of the builder, and its
    /// width where it is fixed-width binary.
    pub open spec fn built_from(self, builder: VarArray) -> bool {
        match (self, builder) {
            (Column::Bool(_), VarArray::Bool(_)) => true,
            (Column::U8(_), VarArray::U8(_)) => true,
            (Column::I32(_), VarArray::I32(_)) => true,
            (Column::I64(_), VarArray::I64(_)) => true,
            (Column::F64(_), VarArray::F64(_)) => true,
            (Column::Utf8(_), VarArray::Utf8(_)) => true,
            (Column::Fsb(a), VarArray::Fsb(b)) => fsb_array_width(a) == fsb_width(b),
            _ => false,
        }
    }

    /// Whether the column has a null among its entries.
    pub open spec fn has_null(self) -> bool {
        match self {
            Column::Bool(a) => bool_array_items(a).contains(None),
            Column::U8(a) => u8_array_items(a).contains(None),
            Column::I32(a) => i32_array_items(a).contains(None),
            Column::I64(a) => i64_array_items(a).contains(None),
            Column::F64(a) => float_array_items(a).contains(None),
            Column::Utf8(a) => str_array_items(a).contains(None),
            Column::Fsb(a) => fsb_array_items(a).contains(None),
        }
    }

    /// Whether the first `k` entries of the column have a null among them.
    pub open spec fn has_null_before(self, k: int) -> bool {
        match self {
            Column::Bool(a) => bool_array_items(a).take(k).contains(None),
            Column::U8(a) => u8_array_items(a).take(k).contains(None),
            Column::I32(a) => i32_array_items(a).take(k).contains(None),
            Column::I64(a) => i64_array_items(a).take(k).contains(None),
            Column::F64(a) => float_array_items(a).take(k).contains(None),
            Column::Utf8(a) => str_array_items(a).take(k).contains(None),
            Column::Fsb(a) => fsb_array_items(a).take(k).contains(None),
        }
    }

    /// The bytes that the texts of a text column take in UTF-8. Zero for
    /// any other column.
    pub open spec fn text_bytes(self) -> nat {
        match self {
            Column::Utf8(a) => texts_bytes(str_array_items(a)),
            _ => 0,
        }
    }

    /// The bytes that the first `k` texts of a text column take in UTF-8.
    /// Zero for any other column.
    pub open spec fn text_bytes_before(self, k: int) -> nat {
        match self {
            Column::Utf8(a) => texts_bytes(str_array_items(a).take(k)),
            _ => 0,
        }
    }

    /// The number of entries.
    pub fn len(&self) -> (n: usize)
        ensures
            n == self.cells().len(),
    {
        match self {
            Column::Bool(a) => bool_array_len(a),
            Column::U8(a) => u8_array_len(a),
            Column::I32(a) => i32_array_len(a),
            Column::I64(a) => i64_array_len(a),
            Column::F64(a) => float_array_len(a),
            Column::Utf8(a) => str_array_len(a),
            Column::Fsb(a) => fsb_array_len(a),
        }
    }
}

impl VarArray {
    /// Whether the column is the builder that a column of `kind` starts
    /// with.
    pub fn is_of(&self, kind: Kind) -> (r: bool)
        ensures
            r == self.holds(kind),
    {
        match self {
            VarArray::Bool(_) => matches!(kind, Kind::Bool),
            VarArray::U8(_) => matches!(kind, Kind::U8),
            VarArray::I32(_) => matches!(kind, Kind::I32),
            VarArray::I64(_) => matches!(kind, Kind::I64) || matches!(kind, Kind::TimestampSecsZ),
            VarArray::F64(_) => matches!(kind, Kind::F64),
            VarArray::Utf8(_) => matches!(kind, Kind::String),
            VarArray::Fsb(a) => matches!(kind, Kind::Uuid) && fsb_size(a) == 16,
        }
    }

    /// The number of entries.
    pub fn len(&self) -> (n: usize)
        ensures
            n == self.cells().len(),
    {
        match self {
            VarArray::Bool(a) => bool_len(a),
            VarArray::U8(a) => u8_len(a),
            VarArray::I32(a) => i32_len(a),
            VarArray::I64(a) => i64_len(a),
            VarArray::F64(a) => float_len(a),
            VarArray::Utf8(a) => str_len(a),
            VarArray::Fsb(a) => fsb_len(a),
        }
    }

    /// Appends a null. Every column takes one.
    pub fn push_null(&mut self)
        ensures
            final(self).appended(*old(self), Cell::Null, 0),
    {
        match self {
            VarArray::Bool(a) => bool_push(a, None),
            VarArray::U8(a) => u8_push(a, None),
            VarArray::I32(a) => i32_push(a, None),
            VarArray::I64(a) => i64_push(a, None),
            VarArray::F64(a) => float_push(a, None),
            VarArray::Utf8(a) => str_push(a, None),
            VarArray::Fsb(a) => {
                let _ = fsb_try_push(a, None);
            },
        }
        assert(self.cells() =~= old(self).cells().push(Cell::Null));
    }

    /// Appends a boolean or a null to a boolean column. Any other column
    /// refuses with `TypeMismatch` and stays as it was.
    pub fn push_bool(&mut self, val: Option<bool>) -> (r: Result<(), Refusal>)
        ensures
            match r {
                Ok(()) => *old(self) is Bool && final(self).appended(*old(self), bool_cell(val), 0),
                Err(e) => e == Refusal::TypeMismatch && *old(self) !is Bool && *final(self)
                    == *old(self),
            },
    {
        match self {
            VarArray::Bool(a) => {
                bool_push(a, val);
                assert(self.cells() =~= old(self).cells().push(bool_cell(val)));
                Ok(())
            },
            _ => Err(Refusal::TypeMismatch),
        }
    }

    /// Appends a text or a null to a text column. Any other column refuses
    /// with `TypeMismatch`, and a text that the column has no room for is
    /// refused with `ValueRejected`: one that would take the column's last
    /// offset past `i32::MAX`. Either way the column stays as it was.
    pub fn push_str(&mut self, val: Option<&str>) -> (r: Result<(), Refusal>)
        ensures
            match r {
                Ok(()) => {
                    &&& old(self).admits(val)
                    &&& final(self).appended(*old(self), str_cell(text_chars(val)), text_bytes(val))
                },
                Err(e) => {
                    &&& !old(self).admits(val)
                    &&& *final(self) == *old(self)
                    &&& e == if *old(self) is Utf8 {
                        Refusal::ValueRejected
                    } else {
                        Refusal::TypeMismatch
                    }
                },
            },
    {
        match self {
            VarArray::Utf8(a) => {
                if text_len(val) > str_room(a) {
                    return Err(Refusal::ValueRejected);
                }
                str_push(a, val);
                assert(self.cells() =~= old(self).cells().push(str_cell(text_chars(val))));
                Ok(())
            },
            _ => Err(Refusal::TypeMismatch),
        }
    }

    /// Appends a byte string or a null to a fixed-width binary column. Any
    /// other column refuses with `TypeMismatch`, and a byte string of
    /// another length than the column's width is refused with
    /// `ValueRejected`; either way the column stays as it was.
    pub fn push_fsb(&mut self, val: Option<&[u8]>) -> (r: Result<(), Refusal>)
        ensures
            match r {
                Ok(()) => old(self).fits(val) && final(self).appended(
                    *old(self),
                    bytes_cell(blob_bytes(val)),
                    0,
                ),
                Err(e) => {
                    &&& !old(self).fits(val)
                    &&& *final(self) == *old(self)
                    &&& e == if *old(self) is Fsb {
                        Refusal::ValueRejected
                    } else {
                        Refusal::TypeMismatch
                    }
                },
            },
    {
        match self {
            VarArray::Fsb(a) => {
                let pushed = fsb_try_push(a, val);
                assert(pushed is Ok ==> self.cells() =~= old(self).cells().push(
                    bytes_cell(blob_bytes(val)),
                ));
                match pushed {
                    Ok(()) => Ok(()),
                    Err(_) => Err(Refusal::ValueRejected),
                }
            },
            _ => Err(Refusal::TypeMismatch),
        }
    }

    /// Appends a fixed-width value or a null to the column of its width.
    /// Any other column refuses with `TypeMismatch` and stays as it was.
    pub fn push_primitive(&mut self, val: Primitive) -> (r: Result<(), Refusal>)
        ensures
            match r {
                Ok(()) => old(self).takes(val) && final(self).appended(*old(self), val.cell(), 0),
                Err(e) => e == Refusal::TypeMismatch && !old(self).takes(val) && *final(self)
                    == *old(self),
            },
    {
        match val {
            Primitive::U8(v) => match self {
                VarArray::U8(a) => {
                    u8_push(a, v);
                    assert(self.cells() =~= old(self).cells().push(val.cell()));
                    Ok(())
                },
                _ => Err(Refusal::TypeMismatch),
            },
            Primitive::I32(v) => match self {
                VarArray::I32(a) => {
                    i32_push(a, v);
                    assert(self.cells() =~= old(self).cells().push(val.cell()));
                    Ok(())
                },
                _ => Err(Refusal::TypeMismatch),
            },
            Primitive::I64(v) => match self {
                VarArray::I64(a) => {
                    i64_push(a, v);
                    assert(self.cells() =~= old(self).cells().push(val.cell()));
                    Ok(())
                },
                _ => Err(Refusal::TypeMismatch),
            },
            Primitive::F64(v) => match self {
                VarArray::F64(a) => {
                    float_push(a, v);
                    assert(self.cells() =~= old(self).cells().push(val.cell()));
                    Ok(())
                },
                _ => Err(Refusal::TypeMismatch),
            },
        }
    }

    /// Appends the entries of a finished column of the same type, in
    /// order.
    ///
    /// A pair of types that cannot be copied is refused with
    /// `TypeMismatch`, and the column stays as it was. Texts that together
    /// would take a text column's last offset past `i32::MAX` are refused
    /// with `ValueRejected`; the column then holds the entries that came
    /// before the first text it had no room for.
    pub fn extend_from(&mut self, from: &Column) -> (r: Result<(), Refusal>)
        ensures
            match r {
                Ok(()) => {
                    &&& old(self).copies(*from)
                    &&& from.text_bytes() <= old(self).room()
                    &&& final(self).extended(*old(self), *from)
                },
                Err(e) => if old(self).copies(*from) {
                    &&& e == Refusal::ValueRejected
                    &&& from.text_bytes() > old(self).room()
                    &&& exists|k: int| #[trigger] final(self).cut_short(*old(self), *from, k)
                } else {
                    e == Refusal::TypeMismatch && *final(self) == *old(self)
                },
            },
    {
        match from {
            Column::Utf8(b) => match self {
                VarArray::Utf8(a) => {
                    let ghost before = *a;
                    let extended = extend_texts(a, b);
                    proof {
                        let texts = str_array_items(*b);
                        lemma_text_cells(str_items(before), texts, str_items(*a));
                        if extended is Err {
                            let k = choose|k: int| stopped_at(before, *a, texts, k);
                            assert(self.cut_short(*old(self), *from, k));
                        }
                    }
                    extended
                },
                _ => Err(Refusal::TypeMismatch),
            },
            Column::I64(b) => match self {
                VarArray::I64(a) => {
                    i64_extend(a, b);
                    assert(self.cells() =~= old(self).cells() + from.cells());
                    Ok(())
                },
                _ => Err(Refusal::TypeMismatch),
            },
            Column::I32(b) => match self {
                VarArray::I32(a) => {
                    i32_extend(a, b);
                    assert(self.cells() =~= old(self).cells() + from.cells());
                    Ok(())
                },
                _ => Err(Refusal::TypeMismatch),
            },
            Column::Bool(b) => match self {
                VarArray::Bool(a) => {
                    bool_extend(a, b);
                    assert(self.cells() =~= old(self).cells() + from.cells());
                    Ok(())
                },
                _ => Err(Refusal::TypeMismatch),
            },
            Column::F64(b) => match self {
                VarArray::F64(a) => {
                    float_extend(a, b);
                    assert(self.cells() =~= old(self).cells() + from.cells());
                    Ok(())
                },
                _ => Err(Refusal::TypeMismatch),
            },
            _ => Err(Refusal::TypeMismatch),
        }
    }

    /// Ends the building: the finished column holds the builder's entries.
    pub fn finish(self) -> (c: Column)
        ensures
            c.cells() == self.cells(),
            c.built_from(self),
    {
        match self {
            VarArray::Bool(a) => Column::Bool(bool_finish(a)),
            VarArray::U8(a) => Column::U8(u8_finish(a)),
            VarArray::I32(a) => Column::I32(i32_finish(a)),
            VarArray::I64(a) => Column::I64(i64_finish(a)),
            VarArray::F64(a) => Column::F64(float_finish(a)),
            VarArray::Utf8(a) => Column::Utf8(str_finish(a)),
            VarArray::Fsb(a) => Column::Fsb(fsb_finish(a)),
        }
    }
}

impl Kind {
    /// An empty builder for a column of the kind, with room for `capacity`
    /// entries. A UUID column is 16 bytes wide; a timestamp column is
    /// built as 64-bit integers.
    pub fn array_with_capacity(self, capacity: usize) -> (a: VarArray)
        requires
            capacity_ok(capacity),
        ensures
            a.holds(self),
            a.fresh(),
    {
        let a = match self {
            Kind::Bool => VarArray::Bool(bool_with_capacity(capacity)),
            Kind::U8 => VarArray::U8(u8_with_capacity(capacity)),
            Kind::I32 => VarArray::I32(i32_with_capacity(capacity)),
            Kind::I64 => VarArray::I64(i64_with_capacity(capacity)),
            Kind::F64 => VarArray::F64(float_with_capacity(capacity)),
            Kind::String => VarArray::Utf8(str_with_capacity(capacity)),
            Kind::Uuid => VarArray::Fsb(fsb_with_capacity(16, capacity)),
            Kind::TimestampSecsZ => VarArray::I64(i64_with_capacity(capacity)),
        };
        assert(a.cells() =~= Seq::<Cell>::empty());
        a
    }
}

/// The bytes of a validity bitmap of the given length in bits, if any.
fn mask_usage(validity: Option<usize>) -> (n: usize)
    ensures
        n == match validity {
            Some(bits) => bits as nat / 8,
            None => 0,
        },
{
    match validity {
        Some(bits) => bits / 8,
        None => 0,
    }
}

impl MemUsage for MutableBooleanArray {
    /// The validity bitmap and the value bitmap, one bit per entry each.
    open spec fn bytes(&self) -> nat {
        mask_bytes(bool_masked(*self), bool_items(*self).len()) + bool_items(*self).len() / 8
    }

    fn mem_usage(&self) -> (n: usize) {
        mask_usage(bool_validity_len(self)) + bool_len(self) / 8
    }
}

impl MemUsage for U8Builder {
    /// The validity bitmap and one byte per entry.
    open spec fn bytes(&self) -> nat {
        mask_bytes(u8_masked(*self), u8_items(*self).len()) + u8_items(*self).len()
    }

    fn mem_usage(&self) -> (n: usize) {
        mask_usage(u8_validity_len(self)).saturating_add(u8_len(self))
    }
}

impl MemUsage for I32Builder {
    /// The validity bitmap and four bytes per entry.
    open spec fn bytes(&self) -> nat {
        mask_bytes(i32_masked(*self), i32_items(*self).len()) + u32_bytes(i32_items(*self).len())
    }

    fn mem_usage(&self) -> (n: usize) {
        mask_usage(i32_validity_len(self)).saturating_add(saturating_product(i32_len(self), 4))
    }
}

impl MemUsage for I64Builder {
    /// The validity bitmap and eight bytes per entry.
    open spec fn bytes(&self) -> nat {
        mask_bytes(i64_masked(*self), i64_items(*self).len()) + u64_bytes(i64_items(*self).len())
    }

    fn mem_usage(&self) -> (n: usize) {
        mask_usage(i64_validity_len(self)).saturating_add(saturating_product(i64_len(self), 8))
    }
}

impl MemUsage for FloatBuilder {
    /// The validity bitmap and eight bytes per entry.
    open spec fn bytes(&self) -> nat {
        mask_bytes(float_masked(*self), float_items(*self).len()) + u64_bytes(
            float_items(*self).len(),
        )
    }

    fn mem_usage(&self) -> (n: usize) {
        mask_usage(float_validity_len(self)).saturating_add(
            saturating_product(float_len(self), 8),
        )
    }
}

impl MemUsage for StrBuilder {
    /// The validity bitmap, the value buffer, and the offsets: one 32-bit
    /// offset more than there are entries.
    open spec fn bytes(&self) -> nat {
        mask_bytes(str_masked(*self), str_items(*self).len()) + str_value_bytes(*self) + u32_bytes(
            str_items(*self).len() + 1,
        )
    }

    fn mem_usage(&self) -> (n: usize) {
        mask_usage(str_validity_len(self)).saturating_add(str_values_len(self)).saturating_add(
            saturating_product(str_offsets_len(self), 4),
        )
    }
}

impl MemUsage for MutableFixedSizeBinaryArray {
    /// The validity bitmap and the value buffer: the width for every
    /// entry, nulls included.
    open spec fn bytes(&self) -> nat {
        mask_bytes(fsb_masked(*self), fsb_items(*self).len()) + fsb_items(*self).len() * fsb_width(
            *self,
        )
    }

    fn mem_usage(&self) -> (n: usize) {
        mask_usage(fsb_validity_len(self)).saturating_add(fsb_values_len(self))
    }
}

impl MemUsage for VarArray {
    /// The bytes of the column's builder: its validity bitmap, its value
    /// buffer and, for a text column, its offsets buffer.
    open spec fn bytes(&self) -> nat {
        match *self {
            VarArray::Bool(a) => a.bytes(),
            VarArray::U8(a) => a.bytes(),
            VarArray::I32(a) => a.bytes(),
            VarArray::I64(a) => a.bytes(),
            VarArray::F64(a) => a.bytes(),
            VarArray::Utf8(a) => a.bytes(),
            VarArray::Fsb(a) => a.bytes(),
        }
    }

    fn mem_usage(&self) -> (n: usize) {
        match self {
            VarArray::Bool(a) => a.mem_usage(),
            VarArray::U8(a) => a.mem_usage(),
            VarArray::I32(a) => a.mem_usage(),
            VarArray::I64(a) => a.mem_usage(),
            VarArray::F64(a) => a.mem_usage(),
            VarArray::Utf8(a) => a.mem_usage(),
            VarArray::Fsb(a) => a.mem_usage(),
        }
    }
}

/// The bytes that an optional text takes: none for a null.
fn text_len(val: Option<&str>) -> (n: usize)
    ensures
        n == text_bytes(val),
{
    match val {
        Some(s) => s.as_bytes().len(),
        None => 0,
    }
}

/// The bytes of text that a text builder still takes.
fn str_room(a: &StrBuilder) -> (n: usize)
    ensures
        n == str_space(*a),
{
    let end = str_last_offset(a);
    if str_values_len(a) == end {
        0x7fff_ffff - end
    } else {
        0
    }
}

/// Whether the builder `after` is `before` with the entries of `texts`
/// appended up to entry `k`, the first that `before` had no room for.
pub open spec fn stopped_at(
    before: StrBuilder,
    after: StrBuilder,
    texts: Seq<Option<Seq<char>>>,
    k: int,
) -> bool {
    &&& first_misfit(texts, str_space(before) as int, k)
    &&& str_items(after) == str_items(before) + texts.take(k)
    &&& str_end(after) == str_end(before) + texts_bytes(texts.take(k))
    &&& str_value_bytes(after) == str_value_bytes(before) + texts_bytes(texts.take(k))
    &&& str_masked(after) == (str_masked(before) || texts.take(k).contains(None))
}

/// Appends the entries of a finished text array to a text builder, in
/// order, and stops before the first text that the builder has no room
/// for.
fn extend_texts(a: &mut StrBuilder, from: &StrArray) -> (r: Result<(), Refusal>)
    ensures
        match r {
            Ok(()) => {
                let texts = str_array_items(*from);
                &&& texts_bytes(texts) <= str_space(*old(a))
                &&& str_items(*final(a)) == str_items(*old(a)) + texts
                &&& str_end(*final(a)) == str_end(*old(a)) + texts_bytes(texts)
                &&& str_value_bytes(*final(a)) == str_value_bytes(*old(a)) + texts_bytes(texts)
                &&& str_masked(*final(a)) == (str_masked(*old(a)) || texts.contains(None))
            },
            Err(e) => {
                &&& e == Refusal::ValueRejected
                &&& texts_bytes(str_array_items(*from)) > str_space(*old(a))
                &&& exists|k: int| #[trigger]
                    stopped_at(*old(a), *final(a), str_array_items(*from), k)
            },
        },
{
    let ghost texts = str_array_items(*from);
    let count = str_array_len(from);
    let mut i: usize = 0;
    while i < count
        invariant
            i <= count,
            count == texts.len(),
            texts == str_array_items(*from),
            texts_bytes(texts.take(i as int)) <= str_space(*old(a)),
            str_space(*a) + texts_bytes(texts.take(i as int)) == str_space(*old(a)),
            str_items(*a) == str_items(*old(a)) + texts.take(i as int),
            str_end(*a) == str_end(*old(a)) + texts_bytes(texts.take(i as int)),
            str_value_bytes(*a) == str_value_bytes(*old(a)) + texts_bytes(texts.take(i as int)),
            str_masked(*a) == (str_masked(*old(a)) || texts.take(i as int).contains(None)),
        decreases count - i,
    {
        let entry = if str_array_is_valid(from, i) {
            Some(str_array_value(from, i))
        } else {
            None
        };
        proof {
            let shorter = texts.take(i as int);
            let longer = texts.take(i + 1);
            assert(longer.drop_last() =~= shorter);
            assert(longer.last() == texts[i as int]);
            assert(text_chars(entry) == texts[i as int]);
            assert(texts_bytes(longer) == texts_bytes(shorter) + text_bytes(entry));
            assert(longer =~= shorter.push(texts[i as int]));
            assert(longer.contains(None) == (shorter.contains(None) || entry is None)) by {
                if entry is None {
                    assert(longer[i as int] == None::<Seq<char>>);
                }
                if shorter.contains(None) {
                    let j = choose|j: int| 0 <= j < shorter.len() && shorter[j] == None::<Seq<char>>;
                    assert(longer[j] == None::<Seq<char>>);
                }
                if longer.contains(None) && !(entry is None) {
                    let j = choose|j: int| 0 <= j < longer.len() && longer[j] == None::<Seq<char>>;
                    assert(shorter[j] == None::<Seq<char>>);
                }
            }
        }
        if text_len(entry) > str_room(a) {
            proof {
                lemma_texts_bytes_prefix(texts, i + 1);
                assert(stopped_at(*old(a), *a, texts, i as int));
            }
            return Err(Refusal::ValueRejected);
        }
        str_push(a, entry);
        assert(str_items(*a) =~= str_items(*old(a)) + texts.take(i + 1));
        i += 1;
    }
    assert(texts.take(i as int) =~= texts);
    Ok(())
}

/// The first entries of texts take no more bytes than all of them.
pub proof fn lemma_texts_bytes_prefix(texts: Seq<Option<Seq<char>>>, k: int)
    requires
        0 <= k <= texts.len(),
    ensures
        texts_bytes(texts.take(k)) <= texts_bytes(texts),
    decreases texts.len(),
{
    if k == texts.len() {
        assert(texts.take(k) =~= texts);
    } else {
        lemma_texts_bytes_prefix(texts.drop_last(), k);
        assert(texts.drop_last().take(k) =~= texts.take(k));
    }
}

/// Appending a prefix of texts to a builder appends the prefix of their
/// cells to its column.
proof fn lemma_text_cells(
    before: Seq<Option<Seq<char>>>,
    from: Seq<Option<Seq<char>>>,
    after: Seq<Option<Seq<char>>>,
)
    ensures
        after == before + from ==> after.map_values(|v: Option<Seq<char>>| str_cell(v))
            == before.map_values(|v: Option<Seq<char>>| str_cell(v)) + from.map_values(
            |v: Option<Seq<char>>| str_cell(v),
        ),
        forall|k: int|
            0 <= k < from.len() && after == before + #[trigger] from.take(k) ==> after.map_values(
                |v: Option<Seq<char>>| str_cell(v),
            ) == before.map_values(|v: Option<Seq<char>>| str_cell(v)) + from.map_values(
                |v: Option<Seq<char>>| str_cell(v),
            ).take(k),
{
    let f = |v: Option<Seq<char>>| str_cell(v);
    if after == before + from {
        assert(after.map_values(f) =~= before.map_values(f) + from.map_values(f));
    }
    assert forall|k: int| 0 <= k < from.len() && after == before + #[trigger] from.take(
        k,
    ) implies after.map_values(f) == before.map_values(f) + from.map_values(f).take(k) by {
        assert(after.map_values(f) =~= before.map_values(f) + from.map_values(f).take(k));
    }
}

} // verus!
