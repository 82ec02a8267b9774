//! The hand-over of finished batches to the encoder tasks: what the owner
//! of the tasks and of their channel may do next, and what it reports.
//!
//! One task per sink encodes the batches it receives, every sink the same
//! batches in the order of their submission, and finalizes its sink once
//! its channel is closed. The tasks and their channels live outside this
//! library; a [`Writer`] keeps their books. Failure is learnt lazily: from a
//! send that finds a task gone, or when the tasks are joined.

use vstd::prelude::*;
use arrow2::datatypes::Field;
use arrow2::io::parquet::write::Encoding;
use crate::column::Column;
use crate::error::{PackError, Violation};
use crate::datatypes::{field_name, field_notes, field_nullable, field_shape, scheme_of};
use crate::schema::{find_field, is_first, names_of, TableField};

verus! {

/// How an encoder task ended.
#[derive(Clone, Copy, Debug, PartialEq, Eq, Structural)]
pub enum Ended {
    /// It finalized its sink and returned it.
    Returned,
    /// It returned an error.
    Failed,
}

/// The numbers of entries of the columns of a batch, in order.
pub open spec fn lengths_of(batch: Seq<Column>) -> Seq<nat> {
    Seq::new(batch.len(), |i: int| batch[i].cells().len())
}

/// Whether all columns of a batch have the same number of entries.
pub open spec fn even(batch: Seq<Column>) -> bool {
    forall|i: int|
        0 <= i < batch.len() ==> (#[trigger] batch[i]).cells().len() == batch[0].cells().len()
}

/// The books of the encoder tasks of one output: its schema, whether the
/// channel to the tasks is still open, and how many tasks are yet to be
/// joined.
pub struct Writer {
    schema: Vec<TableField>,
    sinks: usize,
    open: bool,
    broken: bool,
    waiting: usize,
}

impl Writer {
    /// The fields of the output, in order.
    pub closed spec fn fields(&self) -> Seq<TableField> {
        self.schema@
    }

    /// The number of sinks that the writer was made for.
    pub closed spec fn sink_count(&self) -> usize {
        self.sinks
    }

    /// Whether the channel to the tasks is open.
    pub closed spec fn is_open(&self) -> bool {
        self.open
    }

    /// Whether a send has found its task gone.
    pub closed spec fn is_broken(&self) -> bool {
        self.broken
    }

    /// The number of tasks that are yet to be joined.
    pub closed spec fn unjoined(&self) -> usize {
        self.waiting
    }

    /// Whether the writer is `before` but for its channel and its tasks.
    pub open spec fn same_output(&self, before: &Writer) -> bool {
        self.fields() == before.fields() && self.sink_count() == before.sink_count()
    }

    /// The books of `sinks` tasks, one for each sink, none joined yet, and
    /// of their open channel.
    pub fn new(sinks: usize, schema: &[TableField]) -> (w: Writer)
        ensures
            w.fields() == schema@,
            w.sink_count() == sinks,
            w.is_open(),
            !w.is_broken(),
            w.unjoined() == sinks,
    {
        let mut fields: Vec<TableField> = Vec::new();
        let mut i: usize = 0;
        while i < schema.len()
            invariant
                i <= schema.len(),
                fields@ == schema@.take(i as int),
            decreases schema.len() - i,
        {
            fields.push(schema[i].duplicate());
            i += 1;
        }
        Writer { schema: fields, sinks, open: true, broken: false, waiting: sinks }
    }

    /// The capacity of the channel to each task: as many batches as there
    /// are sinks, so that a producer blocks at the first batch past that
    /// number which no task has taken up.
    pub fn channel_capacity(&self) -> (n: usize)
        ensures
            n == self.sink_count(),
    {
        self.sinks
    }

    /// The first field of the given name, with its position.
    pub fn find_field(&self, name: &str) -> (r: Option<(usize, &TableField)>)
        ensures
            match r {
                Some((at, field)) => is_first(names_of(self.fields()), name@, at as int) && *field
                    == self.fields()[at as int],
                None => !names_of(self.fields()).contains(name@),
            },
    {
        find_field(self.schema.as_slice(), name)
    }

    /// The fields of the output as arrow2 writes them, in order.
    pub fn arrow_fields(&self) -> (fields: Vec<Field>)
        ensures
            fields@.len() == self.fields().len(),
            forall|i: int|
                0 <= i < fields@.len() ==> {
                    &&& field_name(#[trigger] fields@[i]) == self.fields()[i].name@
                    &&& field_shape(fields@[i]) == self.fields()[i].kind.shape()
                    &&& field_nullable(fields@[i]) == self.fields()[i].nullable
                    &&& field_notes(fields@[i]) == 0
                },
    {
        let mut fields: Vec<Field> = Vec::new();
        let mut i: usize = 0;
        while i < self.schema.len()
            invariant
                i <= self.schema.len(),
                fields@.len() == i,
                forall|j: int|
                    0 <= j < i ==> {
                        &&& field_name(#[trigger] fields@[j]) == self.schema@[j].name@
                        &&& field_shape(fields@[j]) == self.schema@[j].kind.shape()
                        &&& field_nullable(fields@[j]) == self.schema@[j].nullable
                        &&& field_notes(fields@[j]) == 0
                    },
            decreases self.schema.len() - i,
        {
            fields.push(self.schema[i].to_arrow());
            i += 1;
        }
        fields
    }

    /// The encodings of the output: for every field, in order, the one
    /// encoding of its one column.
    pub fn encodings(&self) -> (encodings: Vec<Vec<Encoding>>)
        ensures
            encodings@.len() == self.fields().len(),
            forall|i: int|
                0 <= i < encodings@.len() ==> (#[trigger] encodings@[i])@.len() == 1 && scheme_of(
                    encodings@[i]@[0],
                ) == scheme_of(self.fields()[i].encoding),
    {
        let mut encodings: Vec<Vec<Encoding>> = Vec::new();
        let mut i: usize = 0;
        while i < self.schema.len()
            invariant
                i <= self.schema.len(),
                encodings@.len() == i,
                forall|j: int|
                    0 <= j < i ==> (#[trigger] encodings@[j])@.len() == 1 && scheme_of(
                        encodings@[j]@[0],
                    ) == scheme_of(self.schema@[j].encoding),
            decreases self.schema.len() - i,
        {
            let mut one: Vec<Encoding> = Vec::new();
            one.push(self.schema[i].encoding);
            encodings.push(one);
            i += 1;
        }
        encodings
    }

    /// Whether a batch may be sent to the tasks.
    ///
    /// A batch whose columns differ in length is refused with a
    /// `SchemaViolation` that reports the first column that differs from
    /// the first column. Once the channel is closed, every other batch is
    /// refused with `ChannelClosed`.
    pub fn submit_batch(&self, batch: &Vec<Column>) -> (r: Result<(), PackError>)
        ensures
            match r {
                Ok(()) => even(batch@) && self.is_open(),
                Err(e) => if even(batch@) {
                    !self.is_open() && e == PackError::ChannelClosed
                } else {
                    &&& e matches PackError::SchemaViolation(violation)
                    &&& violation.is_first_uneven(lengths_of(batch@))
                },
            },
    {
        if batch.len() > 0 {
            let expected = batch[0].len();
            let mut i: usize = 1;
            while i < batch.len()
                invariant
                    1 <= i <= batch.len(),
                    expected == batch@[0].cells().len(),
                    forall|j: int|
                        0 <= j < i ==> (#[trigger] batch@[j]).cells().len() == expected,
                decreases batch.len() - i,
            {
                let found = batch[i].len();
                if found != expected {
                    assert(batch@[i as int].cells().len() != batch@[0].cells().len());
                    return Err(
                        PackError::SchemaViolation(
                            Violation::Uneven { column: i, expected, found },
                        ),
                    );
                }
                i += 1;
            }
        }
        if !self.open {
            return Err(PackError::ChannelClosed);
        }
        Ok(())
    }

    /// Records that a send found its task gone: the channels are closed,
    /// and the tasks are to be joined for the cause. Says how many tasks
    /// there are to join; with none left the cause is lost, and the send
    /// comes to `ChannelClosed`.
    pub fn send_failed(&mut self) -> (r: Result<usize, PackError>)
        ensures
            final(self).same_output(old(self)),
            !final(self).is_open(),
            final(self).is_broken(),
            final(self).unjoined() == old(self).unjoined(),
            r == if old(self).unjoined() == 0 {
                Err::<usize, PackError>(PackError::ChannelClosed)
            } else {
                Ok(old(self).unjoined())
            },
    {
        self.open = false;
        self.broken = true;
        if self.waiting == 0 {
            Err(PackError::ChannelClosed)
        } else {
            Ok(self.waiting)
        }
    }

    /// The task to join next, if one is left: the tasks are joined from
    /// the last sink's to the first's.
    pub fn next_to_join(&self) -> (r: Option<usize>)
        ensures
            r == if self.unjoined() > 0 {
                Some((self.unjoined() - 1) as usize)
            } else {
                None
            },
    {
        if self.waiting > 0 {
            Some(self.waiting - 1)
        } else {
            None
        }
    }

    /// Records that the task that was next to join has been joined.
    ///
    /// A task that failed is reported as a `ThreadFailure` of its sink.
    /// After a send that found its task gone, the last task to return
    /// without a failure leaves the cause unknown, which is reported as
    /// `ChannelClosed`.
    pub fn joined(&mut self, ended: Ended) -> (r: Result<(), PackError>)
        requires
            old(self).unjoined() > 0,
        ensures
            final(self).same_output(old(self)),
            final(self).is_open() == old(self).is_open(),
            final(self).is_broken() == old(self).is_broken(),
            final(self).unjoined() == old(self).unjoined() - 1,
            r == match ended {
                Ended::Failed => Err::<(), PackError>(
                    PackError::ThreadFailure { sink: (old(self).unjoined() - 1) as usize },
                ),
                Ended::Returned => if old(self).is_broken() && old(self).unjoined() == 1 {
                    Err(PackError::ChannelClosed)
                } else {
                    Ok(())
                },
            },
    {
        self.waiting = self.waiting - 1;
        match ended {
            Ended::Failed => Err(PackError::ThreadFailure { sink: self.waiting }),
            Ended::Returned => if self.broken && self.waiting == 0 {
                Err(PackError::ChannelClosed)
            } else {
                Ok(())
            },
        }
    }

    /// Ends the writing: closes the channels, which tells the tasks to
    /// finalize their sinks, and says how many tasks are to be joined.
    /// With no task left to join the writer has failed before, and the end
    /// is refused with `ChannelClosed`.
    pub fn finish(&mut self) -> (r: Result<usize, PackError>)
        ensures
            final(self).same_output(old(self)),
            !final(self).is_open(),
            final(self).is_broken() == old(self).is_broken(),
            final(self).unjoined() == old(self).unjoined(),
            r == if old(self).unjoined() == 0 {
                Err::<usize, PackError>(PackError::ChannelClosed)
            } else {
                Ok(old(self).unjoined())
            },
    {
        self.open = false;
        if self.waiting == 0 {
            Err(PackError::ChannelClosed)
        } else {
            Ok(self.waiting)
        }
    }
}

} // verus!
