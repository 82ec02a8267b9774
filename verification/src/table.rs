//! An ordered set of column builders that share one schema.

use vstd::prelude::*;
use crate::builders::{
    blob_bytes, capacity_fits, capacity_ok, fsb_size, fsb_width, text_bytes, text_chars,
};
use crate::column::{bool_cell, bytes_cell, str_cell, Cell, Column, Primitive, VarArray};
use crate::error::{PackError, Refusal, Violation};
use crate::mem::{lemma_saturated_add, saturated, MemUsage};
use crate::schema::Kind;

verus! {

/// The bytes that the buffers of the columns hold, all together.
pub open spec fn total_bytes(columns: Seq<VarArray>) -> nat
    decreases columns.len(),
{
    if columns.len() == 0 {
        0
    } else {
        total_bytes(columns.drop_last()) + columns.last().bytes()
    }
}

/// The positions below `n` that are among `items`, in rising order.
pub open spec fn picked(items: Seq<usize>, n: nat) -> Seq<int>
    decreases n,
{
    if n == 0 {
        Seq::empty()
    } else if items.contains((n - 1) as usize) {
        picked(items, (n - 1) as nat).push(n - 1)
    } else {
        picked(items, (n - 1) as nat)
    }
}

/// The builders of the columns of one schema, with a running estimate of
/// the memory they take.
///
/// Pushes may leave the columns at different lengths for a while; at the
/// end of a bulk of pushes all columns must have the same length again.
///
/// Every push adds a cheap, rough cost to the estimate: a deliberate
/// underestimate, which the end of a bulk replaces by the exact bytes. The
/// estimate never wraps: past `usize::MAX` it stays there.
pub struct Table {
    schema: Vec<Kind>,
    builders: Vec<VarArray>,
    cap: usize,
    mem_used: usize,
}

impl Table {
    /// The kinds of the columns, in schema order.
    pub closed spec fn kinds(&self) -> Seq<Kind> {
        self.schema@
    }

    /// The columns, in schema order.
    pub closed spec fn columns(&self) -> Seq<VarArray> {
        self.builders@
    }

    /// The capacity that every column is created with.
    pub closed spec fn capacity(&self) -> usize {
        self.cap
    }

    /// The running estimate of the memory that the columns take.
    pub closed spec fn estimate(&self) -> usize {
        self.mem_used
    }

    /// Whether there is one column for every field of the schema, and the
    /// capacity is one that a builder can be made with. Every table is
    /// made so, and nothing that can be done to a table changes it.
    pub open spec fn wf(&self) -> bool {
        &&& self.columns().len() == self.kinds().len()
        &&& capacity_ok(self.capacity())
    }

    /// Whether every column is of the concrete type of its kind. Pushes
    /// keep it so; a caller who replaces a column through `get` may not.
    pub open spec fn typed(&self) -> bool {
        &&& self.columns().len() == self.kinds().len()
        &&& forall|i: int| 0 <= i < self.columns().len() ==> (#[trigger] self.columns()[i]).holds(
            self.kinds()[i],
        )
    }

    /// The numbers of entries of the columns, in schema order.
    pub open spec fn lengths(&self) -> Seq<nat> {
        Seq::new(self.columns().len(), |i: int| self.columns()[i].cells().len())
    }

    /// Whether all columns have the same number of entries.
    pub open spec fn consistent(&self) -> bool {
        forall|i: int|
            0 <= i < self.columns().len() ==> (#[trigger] self.columns()[i]).cells().len()
                == self.columns()[0].cells().len()
    }

    /// The number of entries of the first column; zero without columns.
    pub open spec fn row_count(&self) -> nat {
        if self.columns().len() == 0 {
            0
        } else {
            self.columns()[0].cells().len()
        }
    }

    /// Whether every column is empty and has allocated nothing yet.
    pub open spec fn pristine(&self) -> bool {
        forall|i: int| 0 <= i < self.columns().len() ==> (#[trigger] self.columns()[i]).fresh()
    }

    /// Whether the table is `before` but for column `at`, and for the
    /// estimate, which has grown by `cost`.
    pub open spec fn differs_at(&self, before: &Table, at: int, cost: nat) -> bool {
        &&& self.kinds() == before.kinds()
        &&& self.capacity() == before.capacity()
        &&& self.columns().len() == before.columns().len()
        &&& forall|j: int|
            0 <= j < self.columns().len() && j != at ==> #[trigger] self.columns()[j]
                == before.columns()[j]
        &&& self.estimate() == saturated((before.estimate() + cost) as nat)
    }

    /// Whether the table is as it was `before`.
    pub open spec fn unchanged(&self, before: &Table) -> bool {
        &&& self.kinds() == before.kinds()
        &&& self.capacity() == before.capacity()
        &&& self.columns() == before.columns()
        &&& self.estimate() == before.estimate()
    }

    /// A table of empty columns, one for each kind, each with room for
    /// `cap` entries.
    pub fn with_capacity(schema: &[Kind], cap: usize) -> (t: Table)
        requires
            capacity_ok(cap),
        ensures
            t.wf(),
            t.typed(),
            t.kinds() == schema@,
            t.capacity() == cap,
            t.pristine(),
            t.estimate() == 0,
    {
        let mut kinds: Vec<Kind> = Vec::new();
        let mut i: usize = 0;
        while i < schema.len()
            invariant
                i <= schema.len(),
                kinds@ == schema@.take(i as int),
            decreases schema.len() - i,
        {
            kinds.push(schema[i]);
            i += 1;
        }
        let builders = make_builders(&kinds, cap);
        Table { schema: kinds, builders, cap, mem_used: 0 }
    }

    /// The number of columns.
    pub fn width(&self) -> (n: usize)
        ensures
            n == self.columns().len(),
    {
        self.builders.len()
    }

    /// Whether there is one column for every field of the schema, and the
    /// capacity is one that a builder can be made with.
    pub fn is_wf(&self) -> (r: bool)
        ensures
            r == self.wf(),
    {
        self.builders.len() == self.schema.len() && capacity_fits(self.cap)
    }

    /// Whether every column is of the concrete type of its kind.
    pub fn is_typed(&self) -> (r: bool)
        ensures
            r == self.typed(),
    {
        if self.builders.len() != self.schema.len() {
            return false;
        }
        let mut i: usize = 0;
        while i < self.builders.len()
            invariant
                i <= self.builders.len(),
                self.builders.len() == self.schema.len(),
                forall|j: int| 0 <= j < i ==> (#[trigger] self.builders@[j]).holds(self.schema@[j]),
            decreases self.builders.len() - i,
        {
            if !self.builders[i].is_of(self.schema[i]) {
                return false;
            }
            i += 1;
        }
        true
    }

    /// Checks that all columns have the same number of entries. If not,
    /// the `SchemaViolation` reports the first column that differs from
    /// the first column, with its length and the expected one.
    pub fn check_consistent(&self) -> (r: Result<(), PackError>)
        ensures
            match r {
                Ok(()) => self.consistent(),
                Err(e) => {
                    &&& !self.consistent()
                    &&& e matches PackError::SchemaViolation(violation)
                    &&& violation.is_first_uneven(self.lengths())
                },
            },
    {
        if self.builders.len() == 0 {
            return Ok(());
        }
        let expected = self.builders[0].len();
        let mut i: usize = 1;
        while i < self.builders.len()
            invariant
                1 <= i <= self.builders.len(),
                expected == self.builders@[0].cells().len(),
                forall|j: int|
                    0 <= j < i ==> (#[trigger] self.builders@[j]).cells().len() == expected,
            decreases self.builders.len() - i,
        {
            let found = self.builders[i].len();
            if found != expected {
                assert(self.columns()[i as int].cells().len() != self.columns()[0].cells().len());
                return Err(
                    PackError::SchemaViolation(Violation::Uneven { column: i, expected, found }),
                );
            }
            i += 1;
        }
        Ok(())
    }

    /// The running estimate of the memory that the columns take: exact
    /// after `finish_bulk_push`, and a cheap, deliberate underestimate of
    /// what was pushed since.
    pub fn mem_estimate(&self) -> (n: usize)
        ensures
            n == self.estimate(),
    {
        self.mem_used
    }

    /// The number of entries of the first column; zero without columns.
    pub fn rows(&self) -> (n: usize)
        ensures
            n == self.row_count(),
    {
        if self.builders.len() == 0 {
            0
        } else {
            self.builders[0].len()
        }
    }

    /// Appends a boolean or a null to column `i` and adds one byte to the
    /// estimate. A column of another type refuses with `TypeMismatch`, and
    /// the table stays as it was.
    pub fn push_bool(&mut self, i: usize, val: Option<bool>) -> (r: Result<(), PackError>)
        requires
            i < old(self).columns().len(),
        ensures
            match r {
                Ok(()) => {
                    &&& old(self).columns()[i as int] is Bool
                    &&& final(self).differs_at(old(self), i as int, 1)
                    &&& final(self).columns()[i as int].appended(
                        old(self).columns()[i as int],
                        bool_cell(val),
                        0,
                    )
                },
                Err(e) => {
                    &&& e == PackError::TypeMismatch { column: i }
                    &&& old(self).columns()[i as int] !is Bool
                    &&& final(self).unchanged(old(self))
                },
            },
    {
        match self.builders[i].push_bool(val) {
            Ok(()) => {
                self.mem_used = self.mem_used.saturating_add(1);
                Ok(())
            },
            Err(refusal) => {
                assert(self.builders@ =~= old(self).builders@);
                Err(refusal.at(i))
            },
        }
    }

    /// Appends a null to column `i` and adds one byte to the estimate.
    /// Every column takes a null, so this never fails.
    pub fn push_null(&mut self, i: usize) -> (r: Result<(), PackError>)
        requires
            i < old(self).columns().len(),
        ensures
            r is Ok,
            final(self).differs_at(old(self), i as int, 1),
            final(self).columns()[i as int].appended(old(self).columns()[i as int], Cell::Null, 0),
    {
        self.builders[i].push_null();
        self.mem_used = self.mem_used.saturating_add(1);
        Ok(())
    }

    /// Appends a text or a null to column `i` and adds the bytes of the
    /// text and four for its offset to the estimate. A column of another
    /// type refuses with `TypeMismatch`, and the table stays as it was. A
    /// text that the column has no room for is refused with
    /// `ValueRejected`: the column stays as it was, and the estimate has
    /// grown all the same.
    pub fn push_str(&mut self, i: usize, val: Option<&str>) -> (r: Result<(), PackError>)
        requires
            i < old(self).columns().len(),
        ensures
            old(self).columns()[i as int] is Utf8 ==> {
                &&& final(self).differs_at(old(self), i as int, text_bytes(val) + 4)
                &&& r is Ok <==> old(self).columns()[i as int].admits(val)
                &&& r is Ok ==> final(self).columns()[i as int].appended(
                    old(self).columns()[i as int],
                    str_cell(text_chars(val)),
                    text_bytes(val),
                )
                &&& r is Err ==> {
                    &&& r == Err::<(), PackError>(PackError::ValueRejected { column: i })
                    &&& final(self).columns()[i as int] == old(self).columns()[i as int]
                }
            },
            old(self).columns()[i as int] !is Utf8 ==> {
                &&& r == Err::<(), PackError>(PackError::TypeMismatch { column: i })
                &&& final(self).unchanged(old(self))
            },
    {
        let cost = match val {
            Some(s) => s.as_bytes().len(),
            None => 0,
        };
        match self.builders[i].push_str(val) {
            Err(Refusal::TypeMismatch) => {
                assert(self.builders@ =~= old(self).builders@);
                Err(PackError::TypeMismatch { column: i })
            },
            pushed => {
                self.mem_used = self.mem_used.saturating_add(cost).saturating_add(4);
                match pushed {
                    Ok(()) => Ok(()),
                    Err(refusal) => Err(refusal.at(i)),
                }
            },
        }
    }

    /// Appends a byte string or a null to column `i`. A column that is not
    /// fixed-width binary refuses with `TypeMismatch`, and the table stays
    /// as it was. A null adds nothing to the estimate. A byte string adds
    /// the column's width to the estimate, and is refused with
    /// `ValueRejected` if it has another length; the column then stays as
    /// it was.
    pub fn push_fsb(&mut self, i: usize, val: Option<&[u8]>) -> (r: Result<(), PackError>)
        requires
            i < old(self).columns().len(),
        ensures
            match old(self).columns()[i as int] {
                VarArray::Fsb(a) => {
                    &&& final(self).differs_at(
                        old(self),
                        i as int,
                        if val is Some {
                            fsb_width(a)
                        } else {
                            0
                        },
                    )
                    &&& r is Ok <==> old(self).columns()[i as int].fits(val)
                    &&& r is Ok ==> final(self).columns()[i as int].appended(
                        old(self).columns()[i as int],
                        bytes_cell(blob_bytes(val)),
                        0,
                    )
                    &&& r is Err ==> {
                        &&& r == Err::<(), PackError>(PackError::ValueRejected { column: i })
                        &&& final(self).columns()[i as int] == old(self).columns()[i as int]
                    }
                },
                _ => {
                    &&& r == Err::<(), PackError>(PackError::TypeMismatch { column: i })
                    &&& final(self).unchanged(old(self))
                },
            },
    {
        let cost = match &self.builders[i] {
            VarArray::Fsb(a) => if val.is_some() {
                fsb_size(a)
            } else {
                0
            },
            _ => 0,
        };
        match self.builders[i].push_fsb(val) {
            Err(Refusal::TypeMismatch) => {
                assert(self.builders@ =~= old(self).builders@);
                Err(PackError::TypeMismatch { column: i })
            },
            pushed => {
                self.mem_used = self.mem_used.saturating_add(cost);
                match pushed {
                    Ok(()) => Ok(()),
                    Err(refusal) => Err(refusal.at(i)),
                }
            },
        }
    }

    /// Appends a fixed-width value or a null to column `i` and adds the
    /// width of the value to the estimate. A column of another type refuses
    /// with `TypeMismatch`, and the table stays as it was.
    pub fn push_primitive(&mut self, i: usize, val: Primitive) -> (r: Result<(), PackError>)
        requires
            i < old(self).columns().len(),
        ensures
            match r {
                Ok(()) => {
                    &&& old(self).columns()[i as int].takes(val)
                    &&& final(self).differs_at(old(self), i as int, val.width())
                    &&& final(self).columns()[i as int].appended(
                        old(self).columns()[i as int],
                        val.cell(),
                        0,
                    )
                },
                Err(e) => {
                    &&& e == PackError::TypeMismatch { column: i }
                    &&& !old(self).columns()[i as int].takes(val)
                    &&& final(self).unchanged(old(self))
                },
            },
    {
        let cost: usize = match val {
            Primitive::U8(_) => 1,
            Primitive::I32(_) => 4,
            Primitive::I64(_) => 8,
            Primitive::F64(_) => 8,
        };
        match self.builders[i].push_primitive(val) {
            Ok(()) => {
                self.mem_used = self.mem_used.saturating_add(cost);
                Ok(())
            },
            Err(refusal) => {
                assert(self.builders@ =~= old(self).builders@);
                Err(refusal.at(i))
            },
        }
    }

    /// Column `item`, to push into directly. Pushes made this way are not
    /// counted in the estimate until the next `finish_bulk_push`.
    pub fn get(&mut self, item: usize) -> (column: &mut VarArray)
        requires
            item < old(self).columns().len(),
        ensures
            *column == old(self).columns()[item as int],
            final(self).columns() == old(self).columns().update(item as int, *final(column)),
            final(self).kinds() == old(self).kinds(),
            final(self).capacity() == old(self).capacity(),
            final(self).estimate() == old(self).estimate(),
    {
        &mut self.builders[item]
    }

    /// Appends the entries of a finished column to column `i`, as
    /// [`VarArray::extend_from`] does. The estimate is left as it is until
    /// the next `finish_bulk_push`.
    pub fn extend_column(&mut self, i: usize, from: &Column) -> (r: Result<(), PackError>)
        requires
            i < old(self).columns().len(),
        ensures
            final(self).differs_at(old(self), i as int, 0),
            match r {
                Ok(()) => {
                    &&& old(self).columns()[i as int].copies(*from)
                    &&& from.text_bytes() <= old(self).columns()[i as int].room()
                    &&& final(self).columns()[i as int].extended(
                        old(self).columns()[i as int],
                        *from,
                    )
                },
                Err(e) => if old(self).columns()[i as int].copies(*from) {
                    &&& e == PackError::ValueRejected { column: i }
                    &&& from.text_bytes() > old(self).columns()[i as int].room()
                    &&& exists|k: int|
                        #[trigger] final(self).columns()[i as int].cut_short(
                            old(self).columns()[i as int],
                            *from,
                            k,
                        )
                } else {
                    e == PackError::TypeMismatch { column: i } && final(self).unchanged(old(self))
                },
            },
    {
        match self.builders[i].extend_from(from) {
            Ok(()) => Ok(()),
            Err(refusal) => {
                proof {
                    if !old(self).columns()[i as int].copies(*from) {
                        assert(self.builders@ =~= old(self).builders@);
                    }
                }
                Err(refusal.at(i))
            },
        }
    }

    /// The columns whose positions are among `items`, in schema order, to
    /// push into directly. Positions that the table lacks are passed over.
    /// Pushes made this way are not counted in the estimate until the next
    /// `finish_bulk_push`.
    pub fn get_many(&mut self, items: &[usize]) -> (views: Vec<&mut VarArray>)
        ensures
            final(self).kinds() == old(self).kinds(),
            final(self).capacity() == old(self).capacity(),
            final(self).estimate() == old(self).estimate(),
            final(self).columns().len() == old(self).columns().len(),
            views@.len() == picked(items@, old(self).columns().len()).len(),
            forall|k: int|
                0 <= k < views@.len() ==> *(#[trigger] views@[k]) == old(self).columns()[picked(
                    items@,
                    old(self).columns().len(),
                )[k]],
            forall|k: int|
                #![trigger views@[k]]
                0 <= k < views@.len() ==> final(self).columns()[picked(
                    items@,
                    old(self).columns().len(),
                )[k]] == *final(views@[k]),
            forall|j: int|
                0 <= j < old(self).columns().len() && !items@.contains(j as usize)
                    ==> #[trigger] final(self).columns()[j] == old(self).columns()[j],
    {
        let ghost origin = self.builders@;
        let count = self.builders.len();
        let mut views: Vec<&mut VarArray> = Vec::new();
        let whole: &mut [VarArray] = self.builders.as_mut_slice();
        let ghost settled = final(whole)@;
        let mut rest: &mut [VarArray] = whole;
        let mut at: usize = 0;
        while rest.len() > 0
            invariant
                origin.len() == count,
                at + rest@.len() == origin.len(),
                rest@ == origin.subrange(at as int, origin.len() as int),
                at <= settled.len(),
                settled.subrange(at as int, settled.len() as int) == final(rest)@,
                views@.len() == picked(items@, at as nat).len(),
                forall|k: int|
                    0 <= k < views@.len() ==> 0 <= #[trigger] picked(items@, at as nat)[k] < at,
                forall|k: int|
                    0 <= k < views@.len() ==> *(#[trigger] views@[k]) == origin[picked(
                        items@,
                        at as nat,
                    )[k]],
                forall|k: int|
                    #![trigger views@[k]]
                    0 <= k < views@.len() ==> settled[picked(items@, at as nat)[k]] == *final(views@[k]),
                forall|j: int|
                    0 <= j < at && !items@.contains(j as usize) ==> #[trigger] settled[j]
                        == origin[j],
            decreases rest.len(),
        {
            let ghost tail_of = settled.subrange(at as int, settled.len() as int);
            let (head, tail) = rest.split_at_mut(1);
            let ghost first = final(head)@;
            let ghost others = final(tail)@;
            if holds_position(items, at) {
                match head.first_mut() {
                    Some(column) => views.push(column),
                    None => {},
                }
            }
            assert(tail_of == first + others);
            assert(tail_of.len() == first.len() + others.len());
            assert(settled[at as int] == tail_of[0]);
            assert forall|i: int| 0 <= i < others.len() implies others[i] == settled[at + 1 + i] by {
                assert(tail_of[i + 1] == settled[at + (i + 1)]);
            }
            rest = tail;
            at += 1;
        }
        views
    }

    /// Ends a bulk of pushes: checks that all columns have the same number
    /// of entries, and replaces the estimate by the bytes that the columns'
    /// buffers hold. Columns of different lengths are refused as
    /// `check_consistent` refuses them, and the estimate stays as it was.
    pub fn finish_bulk_push(&mut self) -> (r: Result<(), PackError>)
        ensures
            final(self).kinds() == old(self).kinds(),
            final(self).capacity() == old(self).capacity(),
            final(self).columns() == old(self).columns(),
            match r {
                Ok(()) => final(self).consistent() && final(self).estimate() == saturated(
                    total_bytes(final(self).columns()),
                ),
                Err(e) => {
                    &&& !old(self).consistent()
                    &&& e matches PackError::SchemaViolation(violation)
                    &&& violation.is_first_uneven(old(self).lengths())
                    &&& final(self).estimate() == old(self).estimate()
                },
            },
    {
        match self.check_consistent() {
            Ok(()) => {},
            Err(e) => {
                return Err(e);
            },
        }
        let mut sum: usize = 0;
        let mut i: usize = 0;
        while i < self.builders.len()
            invariant
                i <= self.builders.len(),
                sum == saturated(total_bytes(self.builders@.take(i as int))),
            decreases self.builders.len() - i,
        {
            let used = self.builders[i].mem_usage();
            proof {
                let next = self.builders@.take(i + 1);
                assert(next.drop_last() =~= self.builders@.take(i as int));
                lemma_saturated_add(total_bytes(next.drop_last()), next.last().bytes());
            }
            sum = sum.saturating_add(used);
            i += 1;
        }
        assert(self.builders@.take(i as int) =~= self.builders@);
        self.mem_used = sum;
        Ok(())
    }

    /// Detaches all columns as a batch of finished columns, one for each
    /// field in schema order, and starts over with empty columns of the
    /// same capacity and an estimate of zero.
    pub fn take_batch(&mut self) -> (batch: Vec<Column>)
        requires
            old(self).wf(),
        ensures
            batch@.len() == old(self).kinds().len(),
            forall|i: int|
                0 <= i < batch@.len() ==> (#[trigger] batch@[i]).cells() == old(
                    self,
                ).columns()[i].cells() && batch@[i].built_from(old(self).columns()[i]),
            final(self).wf(),
            final(self).typed(),
            final(self).kinds() == old(self).kinds(),
            final(self).capacity() == old(self).capacity(),
            final(self).pristine(),
            final(self).row_count() == 0,
            final(self).estimate() == 0,
    {
        let mut taken = make_builders(&self.schema, self.cap);
        std::mem::swap(&mut self.builders, &mut taken);
        self.mem_used = 0;
        let ghost origin = taken@;
        let mut reversed: Vec<Column> = Vec::new();
        while taken.len() > 0
            invariant
                taken@ == origin.take(taken@.len() as int),
                taken@.len() <= origin.len(),
                reversed@.len() + taken@.len() == origin.len(),
                forall|k: int|
                    0 <= k < reversed@.len() ==> (#[trigger] reversed@[k]).cells()
                        == origin[origin.len() - 1 - k].cells() && reversed@[k].built_from(
                        origin[origin.len() - 1 - k],
                    ),
            decreases taken.len(),
        {
            match taken.pop() {
                Some(builder) => reversed.push(builder.finish()),
                None => {},
            }
        }
        let ghost mirrored = reversed@;
        let mut batch: Vec<Column> = Vec::new();
        while reversed.len() > 0
            invariant
                reversed@ == mirrored.take(reversed@.len() as int),
                reversed@.len() <= mirrored.len(),
                mirrored.len() == origin.len(),
                batch@.len() + reversed@.len() == origin.len(),
                forall|k: int|
                    0 <= k < mirrored.len() ==> (#[trigger] mirrored[k]).cells()
                        == origin[origin.len() - 1 - k].cells() && mirrored[k].built_from(
                        origin[origin.len() - 1 - k],
                    ),
                forall|k: int|
                    0 <= k < batch@.len() ==> (#[trigger] batch@[k]).cells() == origin[k].cells()
                        && batch@[k].built_from(origin[k]),
            decreases reversed.len(),
        {
            match reversed.pop() {
                Some(column) => batch.push(column),
                None => {},
            }
        }
        batch
    }
}

/// Whether `at` is among `items`.
fn holds_position(items: &[usize], at: usize) -> (r: bool)
    ensures
        r == items@.contains(at),
{
    let mut i: usize = 0;
    while i < items.len()
        invariant
            i <= items.len(),
            forall|j: int| 0 <= j < i ==> items@[j] != at,
        decreases items.len() - i,
    {
        if items[i] == at {
            return true;
        }
        i += 1;
    }
    false
}

/// One empty builder for each kind, in order.
fn make_builders(schema: &Vec<Kind>, cap: usize) -> (builders: Vec<VarArray>)
    requires
        capacity_ok(cap),
    ensures
        builders@.len() == schema@.len(),
        forall|i: int|
            0 <= i < builders@.len() ==> (#[trigger] builders@[i]).holds(schema@[i])
                && builders@[i].fresh(),
{
    let mut builders: Vec<VarArray> = Vec::new();
    let mut i: usize = 0;
    while i < schema.len()
        invariant
            i <= schema.len(),
            capacity_ok(cap),
            builders@.len() == i,
            forall|j: int|
                0 <= j < i ==> (#[trigger] builders@[j]).holds(schema@[j]) && builders@[j].fresh(),
        decreases schema.len() - i,
    {
        builders.push(schema[i].array_with_capacity(cap));
        i += 1;
    }
    builders
}

} // verus!
