//! The arrow2 builders and finished arrays that the columns are made of.
//!
//! But for a few definitions that the contracts are written in, everything
//! in this module is a declaration of an arrow2 type, a name for what such
//! a value holds, or a thin call into arrow2 whose contract is taken on
//! trust from arrow2's source. None of those is proved; everything outside
//! this module is proved against their contracts.
//!
//! Floating point columns are described by the IEEE-754 bit pattern of each
//! value, so that the contracts can speak of them with integers.

use vstd::prelude::*;
use arrow2::array::{
    BooleanArray, FixedSizeBinaryArray, Float64Array, Float64Vec, Int32Array, Int32Vec,
    Int64Array, Int64Vec, MutableArray, MutableBooleanArray, MutableFixedSizeBinaryArray,
    MutableUtf8Array, UInt8Array, UInt8Vec, Utf8Array,
};
use arrow2::array::Array;
use arrow2::types::{Index, NativeType};

verus! {

/// Whether a builder may be created with room for `capacity` entries: the
/// widest entry takes 16 bytes, and an allocation holds at most
/// `isize::MAX` bytes.
pub open spec fn capacity_ok(capacity: usize) -> bool {
    capacity * 16 <= isize::MAX
}

/// Whether a builder may be created with room for `capacity` entries.
pub fn capacity_fits(capacity: usize) -> (r: bool)
    ensures
        r == capacity_ok(capacity),
{
    capacity <= isize::MAX as usize / 16
}

/// The number of bytes that a text takes in UTF-8.
pub open spec fn utf8_len(text: Seq<char>) -> nat {
    vstd::utf8::encode_utf8(text).len()
}

/// The number of bytes that an optional text takes in UTF-8; a null takes
/// none.
pub open spec fn text_bytes(v: Option<&str>) -> nat {
    match v {
        Some(s) => utf8_len(s@),
        None => 0,
    }
}

/// The characters of an optional text.
pub open spec fn text_chars(v: Option<&str>) -> Option<Seq<char>> {
    match v {
        Some(s) => Some(s@),
        None => None,
    }
}

/// The bytes of an optional byte string.
pub open spec fn blob_bytes(v: Option<&[u8]>) -> Option<Seq<u8>> {
    match v {
        Some(s) => Some(s@),
        None => None,
    }
}

/// arrow2's `Error`, opaque to the proofs.
#[verifier::external_type_specification]
#[verifier::external_body]
pub struct ExArrowError(arrow2::error::Error);

// ---------------------------------------------------------------- booleans

/// arrow2's `MutableBooleanArray`, opaque to the proofs.
#[verifier::external_type_specification]
#[verifier::external_body]
pub struct ExMutableBooleanArray(MutableBooleanArray);

/// arrow2's `BooleanArray`, opaque to the proofs.
#[verifier::external_type_specification]
#[verifier::external_body]
pub struct ExBooleanArray(BooleanArray);

/// The entries of a boolean builder, oldest first; `None` is a null.
pub uninterp spec fn bool_items(a: MutableBooleanArray) -> Seq<Option<bool>>;

/// Whether a boolean builder has allocated its validity bitmap.
pub uninterp spec fn bool_masked(a: MutableBooleanArray) -> bool;

/// The entries of a finished boolean array.
pub uninterp spec fn bool_array_items(a: BooleanArray) -> Seq<Option<bool>>;

/// `MutableBooleanArray::with_capacity`: an empty builder without a
/// validity bitmap.
#[verifier::external_body]
pub(crate) fn bool_with_capacity(capacity: usize) -> (a: MutableBooleanArray)
    requires
        capacity_ok(capacity),
    ensures
        bool_items(a) == Seq::<Option<bool>>::empty(),
        !bool_masked(a),
{
    MutableBooleanArray::with_capacity(capacity)
}

/// `MutableBooleanArray::push`: appends one entry; the first null allocates
/// the validity bitmap, which then stays.
#[verifier::external_body]
pub(crate) fn bool_push(a: &mut MutableBooleanArray, v: Option<bool>)
    ensures
        bool_items(*final(a)) == bool_items(*old(a)).push(v),
        bool_masked(*final(a)) == (bool_masked(*old(a)) || v is None),
{
    a.push(v)
}

/// `MutableArray::len` of a boolean builder: the number of entries.
#[verifier::external_body]
pub(crate) fn bool_len(a: &MutableBooleanArray) -> (n: usize)
    ensures
        n == bool_items(*a).len(),
{
    a.len()
}

/// `MutableArray::validity` of a boolean builder, by its length in bits:
/// one bit per entry once the bitmap is allocated.
#[verifier::external_body]
pub(crate) fn bool_validity_len(a: &MutableBooleanArray) -> (n: Option<usize>)
    ensures
        match n {
            Some(bits) => bool_masked(*a) && bits == bool_items(*a).len(),
            None => !bool_masked(*a),
        },
{
    a.validity().map(|bits| bits.len())
}

/// `From<MutableBooleanArray> for BooleanArray`: the finished array holds
/// the builder's entries.
#[verifier::external_body]
pub(crate) fn bool_finish(a: MutableBooleanArray) -> (r: BooleanArray)
    ensures
        bool_array_items(r) == bool_items(a),
{
    a.into()
}

// ---------------------------------------------------------------- 8-bit unsigned

/// A builder of 8-bit unsigned values: arrow2's `UInt8Vec`.
#[verifier::external_body]
pub struct U8Builder {
    inner: UInt8Vec,
}

/// A finished array of 8-bit unsigned values: arrow2's `UInt8Array`.
#[verifier::external_body]
pub struct U8Array {
    pub inner: UInt8Array,
}

/// The entries of a builder of 8-bit unsigned values, oldest first; `None` is a
/// null.
pub uninterp spec fn u8_items(a: U8Builder) -> Seq<Option<u8>>;

/// Whether the builder has allocated its validity bitmap.
pub uninterp spec fn u8_masked(a: U8Builder) -> bool;

/// The entries of a finished array of 8-bit unsigned values.
pub uninterp spec fn u8_array_items(a: U8Array) -> Seq<Option<u8>>;

/// `MutablePrimitiveArray::with_capacity`: an empty builder without a
/// validity bitmap.
#[verifier::external_body]
pub(crate) fn u8_with_capacity(capacity: usize) -> (a: U8Builder)
    requires
        capacity_ok(capacity),
    ensures
        u8_items(a) == Seq::<Option<u8>>::empty(),
        !u8_masked(a),
{
    U8Builder { inner: UInt8Vec::with_capacity(capacity) }
}

/// `MutablePrimitiveArray::push`: appends one entry; the first null
/// allocates the validity bitmap, which then stays.
#[verifier::external_body]
pub(crate) fn u8_push(a: &mut U8Builder, v: Option<u8>)
    ensures
        u8_items(*final(a)) == u8_items(*old(a)).push(v),
        u8_masked(*final(a)) == (u8_masked(*old(a)) || v is None),
{
    a.inner.push(v)
}

/// `MutableArray::len`: the number of entries.
#[verifier::external_body]
pub(crate) fn u8_len(a: &U8Builder) -> (n: usize)
    ensures
        n == u8_items(*a).len(),
{
    a.inner.len()
}

/// `MutableArray::validity`, by its length in bits: one bit per entry once
/// the bitmap is allocated.
#[verifier::external_body]
pub(crate) fn u8_validity_len(a: &U8Builder) -> (n: Option<usize>)
    ensures
        match n {
            Some(bits) => u8_masked(*a) && bits == u8_items(*a).len(),
            None => !u8_masked(*a),
        },
{
    a.inner.validity().map(|bits| bits.len())
}

/// `From<MutablePrimitiveArray<T>> for PrimitiveArray<T>`: the finished
/// array holds the builder's entries.
#[verifier::external_body]
pub(crate) fn u8_finish(a: U8Builder) -> (r: U8Array)
    ensures
        u8_array_items(r) == u8_items(a),
{
    U8Array { inner: a.inner.into() }
}

// ---------------------------------------------------------------- 32-bit signed

/// A builder of 32-bit signed values: arrow2's `Int32Vec`.
#[verifier::external_body]
pub struct I32Builder {
    inner: Int32Vec,
}

/// A finished array of 32-bit signed values: arrow2's `Int32Array`.
#[verifier::external_body]
pub struct I32Array {
    pub inner: Int32Array,
}

/// The entries of a builder of 32-bit signed values, oldest first; `None` is a
/// null.
pub uninterp spec fn i32_items(a: I32Builder) -> Seq<Option<i32>>;

/// Whether the builder has allocated its validity bitmap.
pub uninterp spec fn i32_masked(a: I32Builder) -> bool;

/// The entries of a finished array of 32-bit signed values.
pub uninterp spec fn i32_array_items(a: I32Array) -> Seq<Option<i32>>;

/// `MutablePrimitiveArray::with_capacity`: an empty builder without a
/// validity bitmap.
#[verifier::external_body]
pub(crate) fn i32_with_capacity(capacity: usize) -> (a: I32Builder)
    requires
        capacity_ok(capacity),
    ensures
        i32_items(a) == Seq::<Option<i32>>::empty(),
        !i32_masked(a),
{
    I32Builder { inner: Int32Vec::with_capacity(capacity) }
}

/// `MutablePrimitiveArray::push`: appends one entry; the first null
/// allocates the validity bitmap, which then stays.
#[verifier::external_body]
pub(crate) fn i32_push(a: &mut I32Builder, v: Option<i32>)
    ensures
        i32_items(*final(a)) == i32_items(*old(a)).push(v),
        i32_masked(*final(a)) == (i32_masked(*old(a)) || v is None),
{
    a.inner.push(v)
}

/// `MutableArray::len`: the number of entries.
#[verifier::external_body]
pub(crate) fn i32_len(a: &I32Builder) -> (n: usize)
    ensures
        n == i32_items(*a).len(),
{
    a.inner.len()
}

/// `MutableArray::validity`, by its length in bits: one bit per entry once
/// the bitmap is allocated.
#[verifier::external_body]
pub(crate) fn i32_validity_len(a: &I32Builder) -> (n: Option<usize>)
    ensures
        match n {
            Some(bits) => i32_masked(*a) && bits == i32_items(*a).len(),
            None => !i32_masked(*a),
        },
{
    a.inner.validity().map(|bits| bits.len())
}

/// `From<MutablePrimitiveArray<T>> for PrimitiveArray<T>`: the finished
/// array holds the builder's entries.
#[verifier::external_body]
pub(crate) fn i32_finish(a: I32Builder) -> (r: I32Array)
    ensures
        i32_array_items(r) == i32_items(a),
{
    I32Array { inner: a.inner.into() }
}

// ---------------------------------------------------------------- 64-bit signed

/// A builder of 64-bit signed values: arrow2's `Int64Vec`.
#[verifier::external_body]
pub struct I64Builder {
    inner: Int64Vec,
}

/// A finished array of 64-bit signed values: arrow2's `Int64Array`.
#[verifier::external_body]
pub struct I64Array {
    pub inner: Int64Array,
}

/// The entries of a builder of 64-bit signed values, oldest first; `None` is a
/// null.
pub uninterp spec fn i64_items(a: I64Builder) -> Seq<Option<i64>>;

/// Whether the builder has allocated its validity bitmap.
pub uninterp spec fn i64_masked(a: I64Builder) -> bool;

/// The entries of a finished array of 64-bit signed values.
pub uninterp spec fn i64_array_items(a: I64Array) -> Seq<Option<i64>>;

/// `MutablePrimitiveArray::with_capacity`: an empty builder without a
/// validity bitmap.
#[verifier::external_body]
pub(crate) fn i64_with_capacity(capacity: usize) -> (a: I64Builder)
    requires
        capacity_ok(capacity),
    ensures
        i64_items(a) == Seq::<Option<i64>>::empty(),
        !i64_masked(a),
{
    I64Builder { inner: Int64Vec::with_capacity(capacity) }
}

/// `MutablePrimitiveArray::push`: appends one entry; the first null
/// allocates the validity bitmap, which then stays.
#[verifier::external_body]
pub(crate) fn i64_push(a: &mut I64Builder, v: Option<i64>)
    ensures
        i64_items(*final(a)) == i64_items(*old(a)).push(v),
        i64_masked(*final(a)) == (i64_masked(*old(a)) || v is None),
{
    a.inner.push(v)
}

/// `MutableArray::len`: the number of entries.
#[verifier::external_body]
pub(crate) fn i64_len(a: &I64Builder) -> (n: usize)
    ensures
        n == i64_items(*a).len(),
{
    a.inner.len()
}

/// `MutableArray::validity`, by its length in bits: one bit per entry once
/// the bitmap is allocated.
#[verifier::external_body]
pub(crate) fn i64_validity_len(a: &I64Builder) -> (n: Option<usize>)
    ensures
        match n {
            Some(bits) => i64_masked(*a) && bits == i64_items(*a).len(),
            None => !i64_masked(*a),
        },
{
    a.inner.validity().map(|bits| bits.len())
}

/// `From<MutablePrimitiveArray<T>> for PrimitiveArray<T>`: the finished
/// array holds the builder's entries.
#[verifier::external_body]
pub(crate) fn i64_finish(a: I64Builder) -> (r: I64Array)
    ensures
        i64_array_items(r) == i64_items(a),
{
    I64Array { inner: a.inner.into() }
}

// ---------------------------------------------------------------- 64-bit floating point

/// A builder of 64-bit floating point values: arrow2's `Float64Vec`.
#[verifier::external_body]
pub struct FloatBuilder {
    inner: Float64Vec,
}

/// A finished array of 64-bit floating point values: arrow2's `Float64Array`.
#[verifier::external_body]
pub struct FloatArray {
    pub inner: Float64Array,
}

/// The entries of a builder of 64-bit floating point values, oldest first; `None` is a
/// null. Each value is given by its IEEE-754 bit pattern.
pub uninterp spec fn float_items(a: FloatBuilder) -> Seq<Option<u64>>;

/// Whether the builder has allocated its validity bitmap.
pub uninterp spec fn float_masked(a: FloatBuilder) -> bool;

/// The entries of a finished array of 64-bit floating point values. Each value is given by its IEEE-754 bit pattern.
pub uninterp spec fn float_array_items(a: FloatArray) -> Seq<Option<u64>>;

/// `MutablePrimitiveArray::with_capacity`: an empty builder without a
/// validity bitmap.
#[verifier::external_body]
pub(crate) fn float_with_capacity(capacity: usize) -> (a: FloatBuilder)
    requires
        capacity_ok(capacity),
    ensures
        float_items(a) == Seq::<Option<u64>>::empty(),
        !float_masked(a),
{
    FloatBuilder { inner: Float64Vec::with_capacity(capacity) }
}

/// `MutablePrimitiveArray::push`, with the value made from its bit pattern
/// by `NativeType::from_le_bytes`: appends one entry; the first null
/// allocates the validity bitmap, which then stays.
#[verifier::external_body]
pub(crate) fn float_push(a: &mut FloatBuilder, v: Option<u64>)
    ensures
        float_items(*final(a)) == float_items(*old(a)).push(v),
        float_masked(*final(a)) == (float_masked(*old(a)) || v is None),
{
    a.inner.push(v.map(|bits| NativeType::from_le_bytes(bits.to_le_bytes())))
}

/// `MutableArray::len`: the number of entries.
#[verifier::external_body]
pub(crate) fn float_len(a: &FloatBuilder) -> (n: usize)
    ensures
        n == float_items(*a).len(),
{
    a.inner.len()
}

/// `MutableArray::validity`, by its length in bits: one bit per entry once
/// the bitmap is allocated.
#[verifier::external_body]
pub(crate) fn float_validity_len(a: &FloatBuilder) -> (n: Option<usize>)
    ensures
        match n {
            Some(bits) => float_masked(*a) && bits == float_items(*a).len(),
            None => !float_masked(*a),
        },
{
    a.inner.validity().map(|bits| bits.len())
}

/// `From<MutablePrimitiveArray<T>> for PrimitiveArray<T>`: the finished
/// array holds the builder's entries.
#[verifier::external_body]
pub(crate) fn float_finish(a: FloatBuilder) -> (r: FloatArray)
    ensures
        float_array_items(r) == float_items(a),
{
    FloatArray { inner: a.inner.into() }
}

// ---------------------------------------------------------------- text

/// A builder of UTF-8 texts with 32-bit offsets: arrow2's
/// `MutableUtf8Array<i32>`.
#[verifier::external_body]
pub struct StrBuilder {
    inner: MutableUtf8Array<i32>,
}

/// A finished array of UTF-8 texts with 32-bit offsets: arrow2's
/// `Utf8Array<i32>`.
#[verifier::external_body]
pub struct StrArray {
    pub inner: Utf8Array<i32>,
}

/// The entries of a text builder, oldest first; `None` is a null.
pub uninterp spec fn str_items(a: StrBuilder) -> Seq<Option<Seq<char>>>;

/// Whether a text builder has allocated its validity bitmap.
pub uninterp spec fn str_masked(a: StrBuilder) -> bool;

/// The last offset of a text builder: the bytes that its entries take.
pub uninterp spec fn str_end(a: StrBuilder) -> nat;

/// The length of a text builder's value buffer. An entry is the bytes of
/// the buffer between two offsets, so a text can only be appended where
/// the buffer ends at the last offset.
pub uninterp spec fn str_value_bytes(a: StrBuilder) -> nat;

/// The entries of a finished text array.
pub uninterp spec fn str_array_items(a: StrArray) -> Seq<Option<Seq<char>>>;

/// `MutableUtf8Array::with_capacity`: an empty builder without a validity
/// bitmap, whose offsets start at zero.
#[verifier::external_body]
pub(crate) fn str_with_capacity(capacity: usize) -> (a: StrBuilder)
    requires
        capacity_ok(capacity),
    ensures
        str_items(a) == Seq::<Option<Seq<char>>>::empty(),
        !str_masked(a),
        str_end(a) == 0,
        str_value_bytes(a) == 0,
{
    StrBuilder { inner: MutableUtf8Array::<i32>::with_capacity(capacity) }
}

/// Whether a text builder takes the entry: what takes no bytes always
/// goes in, and a text goes in where the value buffer ends at the last
/// offset and the text does not take the last offset past `i32::MAX`.
pub open spec fn str_takes(a: StrBuilder, v: Option<&str>) -> bool {
    text_bytes(v) == 0 || (str_value_bytes(a) == str_end(a) && str_end(a) + text_bytes(v)
        <= i32::MAX)
}

/// `MutableUtf8Array::push`, which panics where the new last offset would
/// exceed `i32::MAX`: appends the bytes of the text to the value buffer and
/// the new last offset to the offsets, and so appends the entry.
#[verifier::external_body]
pub(crate) fn str_push(a: &mut StrBuilder, v: Option<&str>)
    requires
        str_takes(*old(a), v),
    ensures
        str_items(*final(a)) == str_items(*old(a)).push(text_chars(v)),
        str_end(*final(a)) == str_end(*old(a)) + text_bytes(v),
        str_value_bytes(*final(a)) == str_value_bytes(*old(a)) + text_bytes(v),
        str_masked(*final(a)) == (str_masked(*old(a)) || v is None),
{
    a.inner.push(v)
}

/// `Offsets::last` of `MutableUtf8Array::offsets`: the last offset, which
/// is a 32-bit offset and not negative.
#[verifier::external_body]
pub(crate) fn str_last_offset(a: &StrBuilder) -> (n: usize)
    ensures
        n == str_end(*a),
        n <= i32::MAX,
{
    a.inner.offsets().last().to_usize()
}

/// `MutableUtf8Array::len`: the number of entries.
#[verifier::external_body]
pub(crate) fn str_len(a: &StrBuilder) -> (n: usize)
    ensures
        n == str_items(*a).len(),
{
    a.inner.len()
}

/// `MutableArray::validity` of a text builder, by its length in bits.
#[verifier::external_body]
pub(crate) fn str_validity_len(a: &StrBuilder) -> (n: Option<usize>)
    ensures
        match n {
            Some(bits) => str_masked(*a) && bits == str_items(*a).len(),
            None => !str_masked(*a),
        },
{
    a.inner.validity().map(|bits| bits.len())
}

/// `MutableUtf8Array::values`, by its length in bytes.
#[verifier::external_body]
pub(crate) fn str_values_len(a: &StrBuilder) -> (n: usize)
    ensures
        n == str_value_bytes(*a),
{
    a.inner.values().len()
}

/// `MutableUtf8Array::offsets`, by the number of offsets: one more than
/// there are entries.
#[verifier::external_body]
pub(crate) fn str_offsets_len(a: &StrBuilder) -> (n: usize)
    ensures
        n == str_items(*a).len() + 1,
{
    a.inner.offsets().len()
}

/// `From<MutableUtf8Array<i32>> for Utf8Array<i32>`: the finished array
/// holds the builder's entries.
#[verifier::external_body]
pub(crate) fn str_finish(a: StrBuilder) -> (r: StrArray)
    ensures
        str_array_items(r) == str_items(a),
{
    StrArray { inner: a.inner.into() }
}

// ---------------------------------------------------------------- fixed-width binary

/// arrow2's `MutableFixedSizeBinaryArray`, opaque to the proofs.
#[verifier::external_type_specification]
#[verifier::external_body]
pub struct ExMutableFixedSizeBinaryArray(MutableFixedSizeBinaryArray);

/// arrow2's `FixedSizeBinaryArray`, opaque to the proofs.
#[verifier::external_type_specification]
#[verifier::external_body]
pub struct ExFixedSizeBinaryArray(FixedSizeBinaryArray);

/// The entries of a fixed-width binary builder, oldest first; `None` is a
/// null.
pub uninterp spec fn fsb_items(a: MutableFixedSizeBinaryArray) -> Seq<Option<Seq<u8>>>;

/// Whether a fixed-width binary builder has allocated its validity bitmap.
pub uninterp spec fn fsb_masked(a: MutableFixedSizeBinaryArray) -> bool;

/// The width in bytes of every entry of a fixed-width binary builder.
pub uninterp spec fn fsb_width(a: MutableFixedSizeBinaryArray) -> nat;

/// The entries of a finished fixed-width binary array.
pub uninterp spec fn fsb_array_items(a: FixedSizeBinaryArray) -> Seq<Option<Seq<u8>>>;

/// The width in bytes of every entry of a finished fixed-width binary
/// array.
pub uninterp spec fn fsb_array_width(a: FixedSizeBinaryArray) -> nat;

/// `MutableFixedSizeBinaryArray::with_capacity`: an empty builder of the
/// given width without a validity bitmap. arrow2 refuses a width of zero.
#[verifier::external_body]
pub(crate) fn fsb_with_capacity(size: usize, capacity: usize) -> (a: MutableFixedSizeBinaryArray)
    requires
        0 < size <= 16,
        capacity_ok(capacity),
    ensures
        fsb_items(a) == Seq::<Option<Seq<u8>>>::empty(),
        !fsb_masked(a),
        fsb_width(a) == size,
{
    MutableFixedSizeBinaryArray::with_capacity(size, capacity)
}

/// `MutableFixedSizeBinaryArray::try_push`: a value of another length than
/// the builder's width is refused and leaves the builder as it was; any
/// other entry is appended.
#[verifier::external_body]
pub(crate) fn fsb_try_push(a: &mut MutableFixedSizeBinaryArray, v: Option<&[u8]>) -> (r: Result<
    (),
    arrow2::error::Error,
>)
    ensures
        r is Ok <==> (v matches Some(s) ==> s@.len() == fsb_width(*old(a))),
        fsb_width(*final(a)) == fsb_width(*old(a)),
        r is Ok ==> {
            &&& fsb_items(*final(a)) == fsb_items(*old(a)).push(blob_bytes(v))
            &&& fsb_masked(*final(a)) == (fsb_masked(*old(a)) || v is None)
        },
        r is Err ==> *final(a) == *old(a),
{
    a.try_push(v)
}

/// `MutableFixedSizeBinaryArray::len`: the number of entries.
#[verifier::external_body]
pub(crate) fn fsb_len(a: &MutableFixedSizeBinaryArray) -> (n: usize)
    ensures
        n == fsb_items(*a).len(),
{
    a.len()
}

/// `MutableFixedSizeBinaryArray::size`: the width of every entry, which is
/// never zero.
#[verifier::external_body]
pub(crate) fn fsb_size(a: &MutableFixedSizeBinaryArray) -> (n: usize)
    ensures
        n == fsb_width(*a),
        n > 0,
{
    a.size()
}

/// `MutableArray::validity` of a fixed-width binary builder, by its length
/// in bits.
#[verifier::external_body]
pub(crate) fn fsb_validity_len(a: &MutableFixedSizeBinaryArray) -> (n: Option<usize>)
    ensures
        match n {
            Some(bits) => fsb_masked(*a) && bits == fsb_items(*a).len(),
            None => !fsb_masked(*a),
        },
{
    a.validity().map(|bits| bits.len())
}

/// `MutableFixedSizeBinaryArray::values`, by its length in bytes: the width
/// for every entry, nulls included.
#[verifier::external_body]
pub(crate) fn fsb_values_len(a: &MutableFixedSizeBinaryArray) -> (n: usize)
    ensures
        n == fsb_items(*a).len() * fsb_width(*a),
{
    a.values().len()
}

/// `From<MutableFixedSizeBinaryArray> for FixedSizeBinaryArray`: the
/// finished array holds the builder's entries, at the builder's width.
#[verifier::external_body]
pub(crate) fn fsb_finish(a: MutableFixedSizeBinaryArray) -> (r: FixedSizeBinaryArray)
    ensures
        fsb_array_items(r) == fsb_items(a),
        fsb_array_width(r) == fsb_width(a),
{
    a.into()
}

// ---------------------------------------------------------------- finished arrays

/// `BooleanArray::len`: the number of entries.
#[verifier::external_body]
pub(crate) fn bool_array_len(a: &BooleanArray) -> (n: usize)
    ensures
        n == bool_array_items(*a).len(),
{
    a.len()
}

/// `Extend::extend` of `MutableBooleanArray` with `BooleanArray::iter`:
/// pushes the entries of the array in order.
#[verifier::external_body]
pub(crate) fn bool_extend(a: &mut MutableBooleanArray, from: &BooleanArray)
    ensures
        bool_items(*final(a)) == bool_items(*old(a)) + bool_array_items(*from),
        bool_masked(*final(a)) == (bool_masked(*old(a)) || bool_array_items(*from).contains(None)),
{
    a.extend(from.iter())
}

/// `PrimitiveArray::len`: the number of entries.
#[verifier::external_body]
pub(crate) fn u8_array_len(a: &U8Array) -> (n: usize)
    ensures
        n == u8_array_items(*a).len(),
{
    a.inner.len()
}

/// `PrimitiveArray::len`: the number of entries.
#[verifier::external_body]
pub(crate) fn i32_array_len(a: &I32Array) -> (n: usize)
    ensures
        n == i32_array_items(*a).len(),
{
    a.inner.len()
}

/// `PrimitiveArray::len`: the number of entries.
#[verifier::external_body]
pub(crate) fn i64_array_len(a: &I64Array) -> (n: usize)
    ensures
        n == i64_array_items(*a).len(),
{
    a.inner.len()
}

/// `PrimitiveArray::len`: the number of entries.
#[verifier::external_body]
pub(crate) fn float_array_len(a: &FloatArray) -> (n: usize)
    ensures
        n == float_array_items(*a).len(),
{
    a.inner.len()
}

/// `Extend::extend` of `MutablePrimitiveArray` with `PrimitiveArray::iter`:
/// pushes the entries of the array in order.
#[verifier::external_body]
pub(crate) fn i32_extend(a: &mut I32Builder, from: &I32Array)
    ensures
        i32_items(*final(a)) == i32_items(*old(a)) + i32_array_items(*from),
        i32_masked(*final(a)) == (i32_masked(*old(a)) || i32_array_items(*from).contains(None)),
{
    a.inner.extend(from.inner.iter().map(|v| v.copied()))
}

/// `Extend::extend` of `MutablePrimitiveArray` with `PrimitiveArray::iter`:
/// pushes the entries of the array in order.
#[verifier::external_body]
pub(crate) fn i64_extend(a: &mut I64Builder, from: &I64Array)
    ensures
        i64_items(*final(a)) == i64_items(*old(a)) + i64_array_items(*from),
        i64_masked(*final(a)) == (i64_masked(*old(a)) || i64_array_items(*from).contains(None)),
{
    a.inner.extend(from.inner.iter().map(|v| v.copied()))
}

/// `Extend::extend` of `MutablePrimitiveArray` with `PrimitiveArray::iter`:
/// pushes the entries of the array in order.
#[verifier::external_body]
pub(crate) fn float_extend(a: &mut FloatBuilder, from: &FloatArray)
    ensures
        float_items(*final(a)) == float_items(*old(a)) + float_array_items(*from),
        float_masked(*final(a)) == (float_masked(*old(a)) || float_array_items(*from).contains(None)),
{
    a.inner.extend(from.inner.iter().map(|v| v.copied()))
}

/// `Utf8Array::len`: the number of entries.
#[verifier::external_body]
pub(crate) fn str_array_len(a: &StrArray) -> (n: usize)
    ensures
        n == str_array_items(*a).len(),
{
    a.inner.len()
}

/// `Array::is_valid` of `Utf8Array<i32>`: whether the entry is a text and
/// not a null.
#[verifier::external_body]
pub(crate) fn str_array_is_valid(a: &StrArray, i: usize) -> (r: bool)
    requires
        i < str_array_items(*a).len(),
    ensures
        r == (str_array_items(*a)[i as int] is Some),
{
    a.inner.is_valid(i)
}

/// `Utf8Array::value`: the text of an entry that is not a null.
#[verifier::external_body]
pub(crate) fn str_array_value(a: &StrArray, i: usize) -> (r: &str)
    requires
        i < str_array_items(*a).len(),
    ensures
        str_array_items(*a)[i as int] matches Some(text) ==> r@ == text,
{
    a.inner.value(i)
}

/// `FixedSizeBinaryArray::len`: the number of entries.
#[verifier::external_body]
pub(crate) fn fsb_array_len(a: &FixedSizeBinaryArray) -> (n: usize)
    ensures
        n == fsb_array_items(*a).len(),
{
    a.len()
}

} // verus!
