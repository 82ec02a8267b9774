//! The flush policy: when the rows of a table are handed on as a batch.

use vstd::prelude::*;
use crate::column::Column;
use crate::error::PackError;
use crate::schema::{find_field, is_first, names_of, Kind, TableField};
use crate::table::Table;

verus! {

/// The estimated memory past which a table is flushed: 512 MiB.
pub const FLUSH_BYTES: usize = 536_870_912;

/// The number of rows past which a table is flushed.
pub const FLUSH_ROWS: usize = 100_000;

/// The kinds of the fields of a schema, in order.
pub open spec fn kinds_of(schema: Seq<TableField>) -> Seq<Kind> {
    schema.map_values(|f: TableField| f.kind)
}

/// Whether the finished columns of `batch` hold what the builders
/// `columns` held, column by column.
pub open spec fn batch_of(batch: Seq<Column>, columns: Seq<crate::column::VarArray>) -> bool {
    &&& batch.len() == columns.len()
    &&& forall|i: int|
        0 <= i < batch.len() ==> (#[trigger] batch[i]).cells() == columns[i].cells()
            && batch[i].built_from(columns[i])
}

/// A table behind a flush policy. Callers push into the table and ask
/// after each bulk whether a batch is due; a batch that is handed out is
/// theirs to submit to the writer.
pub struct Packer {
    schema: Vec<TableField>,
    table: Table,
    byte_limit: usize,
    row_limit: usize,
}

impl Packer {
    /// The fields of the output, in order.
    pub closed spec fn fields(&self) -> Seq<TableField> {
        self.schema@
    }

    /// The table that the rows are accumulated in.
    pub closed spec fn content(&self) -> Table {
        self.table
    }

    /// The estimated memory past which the table is flushed.
    pub closed spec fn byte_threshold(&self) -> usize {
        self.byte_limit
    }

    /// The number of rows past which the table is flushed.
    pub closed spec fn row_threshold(&self) -> usize {
        self.row_limit
    }

    /// Whether the table is well-formed, as every table is.
    pub open spec fn wf(&self) -> bool {
        self.content().wf()
    }

    /// Whether the table is a table of the packer's schema, each column of
    /// the concrete type of its kind. A new packer is so, and pushes keep it
    /// so; a caller who replaces the table or a column may not.
    pub open spec fn matched(&self) -> bool {
        &&& self.content().kinds() == kinds_of(self.fields())
        &&& self.content().typed()
    }

    /// Whether a threshold is exceeded: the estimated memory or the number
    /// of rows.
    pub open spec fn due(&self) -> bool {
        self.content().estimate() > self.byte_threshold() || self.content().row_count()
            > self.row_threshold()
    }

    /// Whether the packer is `before` with its table emptied.
    pub open spec fn emptied(&self, before: &Packer) -> bool {
        &&& self.fields() == before.fields()
        &&& self.byte_threshold() == before.byte_threshold()
        &&& self.row_threshold() == before.row_threshold()
        &&& self.wf()
        &&& self.content().typed()
        &&& self.content().kinds() == before.content().kinds()
        &&& self.content().capacity() == before.content().capacity()
        &&& self.content().pristine()
        &&& self.content().row_count() == 0
        &&& self.content().estimate() == 0
    }

    /// Whether the packer is as it was `before`, but for the estimate of
    /// its table.
    pub open spec fn kept(&self, before: &Packer) -> bool {
        &&& self.fields() == before.fields()
        &&& self.byte_threshold() == before.byte_threshold()
        &&& self.row_threshold() == before.row_threshold()
        &&& self.content().kinds() == before.content().kinds()
        &&& self.content().capacity() == before.content().capacity()
        &&& self.content().columns() == before.content().columns()
    }

    /// A packer for the schema with the thresholds of 512 MiB and 100,000
    /// rows, and an empty table.
    pub fn new(schema: &[TableField]) -> (p: Packer)
        ensures
            p.wf(),
            p.matched(),
            p.fields() == schema@,
            p.byte_threshold() == FLUSH_BYTES,
            p.row_threshold() == FLUSH_ROWS,
            p.content().capacity() == 0,
            p.content().pristine(),
            p.content().estimate() == 0,
    {
        Packer::with_thresholds(schema, FLUSH_BYTES, FLUSH_ROWS)
    }

    /// A packer for the schema with the given thresholds, and an empty
    /// table.
    pub fn with_thresholds(schema: &[TableField], byte_limit: usize, row_limit: usize) -> (p:
        Packer)
        ensures
            p.wf(),
            p.matched(),
            p.fields() == schema@,
            p.byte_threshold() == byte_limit,
            p.row_threshold() == row_limit,
            p.content().capacity() == 0,
            p.content().pristine(),
            p.content().estimate() == 0,
    {
        let mut fields: Vec<TableField> = Vec::new();
        let mut kinds: Vec<Kind> = Vec::new();
        let mut i: usize = 0;
        while i < schema.len()
            invariant
                i <= schema.len(),
                fields@ == schema@.take(i as int),
                kinds@ == kinds_of(schema@.take(i as int)),
            decreases schema.len() - i,
        {
            fields.push(schema[i].duplicate());
            kinds.push(schema[i].kind);
            assert(kinds_of(schema@.take(i + 1)) =~= kinds_of(schema@.take(i as int)).push(
                schema@[i as int].kind,
            ));
            i += 1;
        }
        let table = Table::with_capacity(kinds.as_slice(), 0);
        Packer { schema: fields, table, byte_limit, row_limit }
    }

    /// Whether the table is well-formed, as every table is.
    pub fn is_wf(&self) -> (r: bool)
        ensures
            r == self.wf(),
    {
        self.table.is_wf()
    }

    /// The table, to push into.
    pub fn table(&mut self) -> (table: &mut Table)
        ensures
            *table == old(self).content(),
            final(self).content() == *final(table),
            final(self).fields() == old(self).fields(),
            final(self).byte_threshold() == old(self).byte_threshold(),
            final(self).row_threshold() == old(self).row_threshold(),
    {
        &mut self.table
    }

    /// The first field of the given name, with its position.
    pub fn find_field(&self, name: &str) -> (r: Option<(usize, &TableField)>)
        ensures
            match r {
                Some((at, field)) => is_first(names_of(self.fields()), name@, at as int) && *field
                    == self.fields()[at as int],
                None => !names_of(self.fields()).contains(name@),
            },
    {
        find_field(self.schema.as_slice(), name)
    }

    /// Hands out a batch if a threshold is exceeded.
    ///
    /// Columns of different lengths are refused with a `SchemaViolation`
    /// that reports the first column that differs from the first column.
    /// Otherwise the table is flushed exactly when its estimated memory or
    /// its number of rows exceeds its threshold; a flush hands out the rows
    /// as a batch, unless there are none.
    pub fn consider_flushing(&mut self) -> (r: Result<Option<Vec<Column>>, PackError>)
        requires
            old(self).wf(),
        ensures
            match r {
                Ok(Some(batch)) => {
                    &&& old(self).content().consistent()
                    &&& old(self).due()
                    &&& old(self).content().row_count() > 0
                    &&& batch_of(batch@, old(self).content().columns())
                    &&& final(self).emptied(old(self))
                },
                Ok(None) => {
                    &&& old(self).content().consistent()
                    &&& !old(self).due() || old(self).content().row_count() == 0
                    &&& final(self).kept(old(self))
                    &&& final(self).content().estimate() == old(self).content().estimate()
                },
                Err(e) => {
                    &&& e matches PackError::SchemaViolation(violation)
                    &&& violation.is_first_uneven(old(self).content().lengths())
                    &&& !old(self).content().consistent()
                    &&& final(self).kept(old(self))
                    &&& final(self).content().estimate() == old(self).content().estimate()
                },
            },
    {
        match self.table.check_consistent() {
            Ok(()) => {},
            Err(e) => {
                return Err(e);
            },
        }
        if self.table.mem_estimate() > self.byte_limit || self.table.rows() > self.row_limit {
            self.flush()
        } else {
            Ok(None)
        }
    }

    /// Hands out the rows of the table as a batch, unless there are none:
    /// an empty batch is never handed out.
    ///
    /// Columns of different lengths are refused with a `SchemaViolation`
    /// that reports the first column that differs from the first column.
    pub fn flush(&mut self) -> (r: Result<Option<Vec<Column>>, PackError>)
        requires
            old(self).wf(),
        ensures
            match r {
                Ok(Some(batch)) => {
                    &&& old(self).content().consistent()
                    &&& old(self).content().row_count() > 0
                    &&& batch_of(batch@, old(self).content().columns())
                    &&& final(self).emptied(old(self))
                },
                Ok(None) => {
                    &&& old(self).content().row_count() == 0
                    &&& final(self).kept(old(self))
                    &&& final(self).content().estimate() == old(self).content().estimate()
                },
                Err(e) => {
                    &&& e matches PackError::SchemaViolation(violation)
                    &&& violation.is_first_uneven(old(self).content().lengths())
                    &&& old(self).content().row_count() > 0
                    &&& !old(self).content().consistent()
                    &&& final(self).kept(old(self))
                    &&& final(self).content().estimate() == old(self).content().estimate()
                },
            },
    {
        if self.table.rows() == 0 {
            return Ok(None);
        }
        match self.table.finish_bulk_push() {
            Ok(()) => {},
            Err(e) => {
                return Err(e);
            },
        }
        let batch = self.table.take_batch();
        Ok(Some(batch))
    }

    /// Ends the packing: hands out the remaining rows as a last batch,
    /// unless there are none. What `flush` refuses is refused here.
    pub fn finish(self) -> (r: Result<Option<Vec<Column>>, PackError>)
        requires
            self.wf(),
        ensures
            match r {
                Ok(Some(batch)) => {
                    &&& self.content().consistent()
                    &&& self.content().row_count() > 0
                    &&& batch_of(batch@, self.content().columns())
                },
                Ok(None) => self.content().row_count() == 0,
                Err(e) => {
                    &&& e matches PackError::SchemaViolation(violation)
                    &&& violation.is_first_uneven(self.content().lengths())
                    &&& self.content().row_count() > 0
                    &&& !self.content().consistent()
                },
            },
    {
        let mut packer = self;
        packer.flush()
    }
}

/// A packer that nothing was pushed into hands out no batch: its table
/// has no rows, so neither `flush` nor `finish` has anything to hand out.
pub proof fn lemma_untouched_packer_is_empty(p: Packer)
    requires
        p.wf(),
        p.content().pristine(),
    ensures
        p.content().row_count() == 0,
        p.content().consistent(),
{
}

/// After a flush that handed out a batch no threshold is exceeded, so the
/// next call of `consider_flushing` hands out nothing: one excess gives
/// one batch.
pub proof fn lemma_flushed_packer_not_due(p: Packer, before: Packer)
    requires
        p.emptied(&before),
    ensures
        !p.due(),
        p.content().consistent(),
{
}

} // verus!
