//! Remapping an existing columnar file into a new one, column by column:
//! the schema of the output, what each operation does with a loaded
//! column, and the order in which row groups and operations are taken.

use vstd::prelude::*;
use arrow2::datatypes::DataType;
use arrow2::io::parquet::write::Encoding;
use crate::column::Column;
use crate::error::{PackError, Violation};
use crate::packer::Packer;
use crate::datatypes::{data_type_clone, encoding_from, scheme_of, shape_of, Scheme, Shape};
use crate::schema::{is_first, names_of, Kind, TableField};
use crate::table::Table;

verus! {

/// A column of the source file.
pub struct SourceField {
    pub name: String,
    pub data_type: DataType,
    pub nullable: bool,
}

/// A column of the output file, as an operation declares it.
pub struct OutField {
    pub name: String,
    pub data_type: DataType,
    pub nullable: bool,
    pub encoding: Encoding,
}

/// What the contracts read of a declared column.
pub struct FieldSpec {
    pub name: Seq<char>,
    pub shape: Shape,
    pub nullable: bool,
    pub scheme: Scheme,
}

/// The output columns that a caller-supplied transform fills from one
/// input column, in the order in which the transform gets them.
pub struct Split {
    pub output: Vec<OutField>,
}

/// What is done with an input column.
pub enum Action {
    /// Fail once the column is loaded.
    ErrorOut,
    /// Declared, and without a meaning so far: it adds no column to the
    /// output, and no run may hold it.
    Drop,
    /// Copy the column into the output column of the same name.
    Copy,
    /// Hand the column to a transform that fills the declared columns.
    Split(Split),
}

/// One operation: an input column and what is done with it.
pub struct Op {
    pub input: String,
    pub action: Action,
}

/// The operations of a run, in the order in which they are carried out for
/// every row group.
pub struct Repack {
    pub ops: Vec<Op>,
}

/// What a caller decides about a row group.
#[derive(Clone, Copy, Debug, PartialEq, Eq, Structural)]
pub enum LoopDecision {
    /// Process the row group.
    Include,
    /// Go on to the next row group.
    Skip,
    /// Stop: no further row group is looked at.
    Break,
}

impl OutField {
    /// What the contracts read of the field.
    pub open spec fn spec(&self) -> FieldSpec {
        FieldSpec {
            name: self.name@,
            shape: shape_of(self.data_type),
            nullable: self.nullable,
            scheme: scheme_of(self.encoding),
        }
    }

    /// A copy of the field.
    pub fn duplicate(&self) -> (f: OutField)
        ensures
            f.spec() == self.spec(),
    {
        OutField {
            name: self.name.clone(),
            data_type: data_type_clone(&self.data_type),
            nullable: self.nullable,
            encoding: self.encoding,
        }
    }
}

/// What the contracts read of each declared column, in order.
pub open spec fn specs_of(fields: Seq<OutField>) -> Seq<FieldSpec> {
    fields.map_values(|f: OutField| f.spec())
}

/// The names of the columns of the source, in order.
pub open spec fn source_names(source: Seq<SourceField>) -> Seq<Seq<char>> {
    source.map_values(|f: SourceField| f.name@)
}

/// The first position of `name` in `names`, which must hold it.
pub open spec fn first_at(names: Seq<Seq<char>>, name: Seq<char>) -> int {
    choose|at: int| is_first(names, name, at)
}

/// A name that occurs has exactly one first position.
pub proof fn lemma_first_at(names: Seq<Seq<char>>, name: Seq<char>, at: int)
    requires
        is_first(names, name, at),
    ensures
        first_at(names, name) == at,
{
    let chosen = first_at(names, name);
    assert(is_first(names, name, chosen));
    if chosen < at {
        assert(names[chosen] != name);
    }
    if at < chosen {
        assert(names[at] != name);
    }
}

/// The output columns that one operation adds: none for `ErrorOut` and
/// `Drop`; for `Copy` the source column of the operation's name, with plain
/// encoding; for `Split` the columns it declares. `None` if a `Copy` names
/// a column that the source lacks.
pub open spec fn op_fields(op: Op, source: Seq<SourceField>) -> Option<Seq<FieldSpec>> {
    match op.action {
        Action::ErrorOut => Some(Seq::empty()),
        Action::Drop => Some(Seq::empty()),
        Action::Copy => if source_names(source).contains(op.input@) {
            let from = source[first_at(source_names(source), op.input@)];
            Some(
                seq![
                    FieldSpec {
                        name: from.name@,
                        shape: shape_of(from.data_type),
                        nullable: from.nullable,
                        scheme: Scheme::Plain,
                    },
                ],
            )
        } else {
            None
        },
        Action::Split(split) => Some(specs_of(split.output@)),
    }
}

/// The output columns of a run: those of its operations, in order. `None`
/// if one of them has none.
pub open spec fn derived(ops: Seq<Op>, source: Seq<SourceField>) -> Option<Seq<FieldSpec>>
    decreases ops.len(),
{
    if ops.len() == 0 {
        Some(Seq::empty())
    } else {
        match (derived(ops.drop_last(), source), op_fields(ops.last(), source)) {
            (Some(before), Some(added)) => Some(before + added),
            _ => None,
        }
    }
}

/// Whether `op` is the first operation of the run whose input column the
/// source lacks, so that it has no output columns.
pub open spec fn first_missing_input(ops: Seq<Op>, source: Seq<SourceField>, op: int) -> bool {
    &&& 0 <= op < ops.len()
    &&& op_fields(ops[op], source) is None
    &&& forall|j: int| 0 <= j < op ==> op_fields(#[trigger] ops[j], source) is Some
}

/// The first column of the source of the given name, with its position.
pub fn find_source<'a>(source: &'a [SourceField], name: &str) -> (r: Option<
    (usize, &'a SourceField),
>)
    ensures
        match r {
            Some((at, field)) => is_first(source_names(source@), name@, at as int) && *field
                == source@[at as int],
            None => !source_names(source@).contains(name@),
        },
{
    let wanted = name.to_owned();
    let mut i: usize = 0;
    while i < source.len()
        invariant
            i <= source.len(),
            wanted@ == name@,
            forall|j: int| 0 <= j < i ==> source_names(source@)[j] != name@,
        decreases source.len() - i,
    {
        if source[i].name == wanted {
            return Some((i, &source[i]));
        }
        i += 1;
    }
    None
}

impl Repack {
    /// The columns of the output, before anything is read: the columns
    /// that the operations add, in the order of the operations. A `Copy` of
    /// a column that the source lacks is refused with a `SchemaViolation`
    /// that reports the first such operation.
    pub fn derive_schema(&self, source: &[SourceField]) -> (r: Result<Vec<OutField>, PackError>)
        ensures
            match r {
                Ok(fields) => derived(self.ops@, source@) == Some(specs_of(fields@)),
                Err(e) => {
                    &&& derived(self.ops@, source@) is None
                    &&& e matches PackError::SchemaViolation(Violation::MissingInput { op })
                    &&& first_missing_input(self.ops@, source@, op as int)
                },
            },
    {
        let mut fields: Vec<OutField> = Vec::new();
        let mut i: usize = 0;
        while i < self.ops.len()
            invariant
                i <= self.ops.len(),
                derived(self.ops@.take(i as int), source@) == Some(specs_of(fields@)),
                forall|j: int| 0 <= j < i ==> op_fields(#[trigger] self.ops@[j], source@) is Some,
            decreases self.ops.len() - i,
        {
            let op = &self.ops[i];
            let ghost before = specs_of(fields@);
            proof {
                assert(self.ops@.take(i + 1).drop_last() =~= self.ops@.take(i as int));
            }
            match &op.action {
                Action::ErrorOut => {},
                Action::Drop => {},
                Action::Copy => {
                    match find_source(source, op.input.as_str()) {
                        Some((at, from)) => {
                            proof {
                                lemma_first_at(source_names(source@), op.input@, at as int);
                            }
                            fields.push(
                                OutField {
                                    name: from.name.clone(),
                                    data_type: data_type_clone(&from.data_type),
                                    nullable: from.nullable,
                                    encoding: encoding_from(Scheme::Plain),
                                },
                            );
                            assert(specs_of(fields@) =~= before + op_fields(
                                *op,
                                source@,
                            ).unwrap());
                        },
                        None => {
                            proof {
                                lemma_derived_fails(self.ops@, source@, i as int);
                            }
                            return Err(
                                PackError::SchemaViolation(Violation::MissingInput { op: i }),
                            );
                        },
                    }
                },
                Action::Split(split) => {
                    let mut k: usize = 0;
                    while k < split.output.len()
                        invariant
                            k <= split.output.len(),
                            specs_of(fields@) == before + specs_of(split.output@.take(k as int)),
                        decreases split.output.len() - k,
                    {
                        let ghost filled = fields@;
                        fields.push(split.output[k].duplicate());
                        assert(specs_of(fields@) =~= specs_of(filled).push(
                            split.output@[k as int].spec(),
                        ));
                        assert(specs_of(split.output@.take(k + 1)) =~= specs_of(
                            split.output@.take(k as int),
                        ).push(split.output@[k as int].spec()));
                        k += 1;
                    }
                },
            }
            i += 1;
        }
        assert(self.ops@.take(i as int) =~= self.ops@);
        Ok(fields)
    }

    /// Whether the run can be carried out: it holds no `Drop`.
    pub open spec fn runnable(&self) -> bool {
        forall|i: int| 0 <= i < self.ops@.len() ==> (#[trigger] self.ops@[i]).action !is Drop
    }

    /// Whether the run can be carried out: it holds no `Drop`.
    pub fn is_runnable(&self) -> (r: bool)
        ensures
            r == self.runnable(),
    {
        let mut i: usize = 0;
        while i < self.ops.len()
            invariant
                i <= self.ops.len(),
                forall|j: int| 0 <= j < i ==> (#[trigger] self.ops@[j]).action !is Drop,
            decreases self.ops.len() - i,
        {
            match &self.ops[i].action {
                Action::Drop => {
                    return false;
                },
                _ => {},
            }
            i += 1;
        }
        true
    }

    /// The position in the source of the input column of operation `at`.
    /// A source that lacks the column is refused with a `SchemaViolation`
    /// that reports the operation.
    pub fn source_position(&self, at: usize, source: &[SourceField]) -> (r: Result<
        usize,
        PackError,
    >)
        requires
            at < self.ops@.len(),
        ensures
            match r {
                Ok(position) => is_first(
                    source_names(source@),
                    self.ops@[at as int].input@,
                    position as int,
                ),
                Err(e) => {
                    &&& e == PackError::SchemaViolation(Violation::MissingInput { op: at })
                    &&& !source_names(source@).contains(self.ops@[at as int].input@)
                },
            },
    {
        match find_source(source, self.ops[at].input.as_str()) {
            Some((position, _)) => Ok(position),
            None => Err(PackError::SchemaViolation(Violation::MissingInput { op: at })),
        }
    }
}

/// A run has no output columns once one of its operations has none.
pub proof fn lemma_derived_fails(ops: Seq<Op>, source: Seq<SourceField>, at: int)
    requires
        0 <= at < ops.len(),
        op_fields(ops[at], source) is None,
    ensures
        derived(ops, source) is None,
    decreases ops.len(),
{
    if at < ops.len() - 1 {
        lemma_derived_fails(ops.drop_last(), source, at);
    }
}

/// Whether every declared column has a type that a kind stands for.
pub open spec fn supported(fields: Seq<FieldSpec>) -> bool {
    forall|i: int| 0 <= i < fields.len() ==> Kind::of_shape((#[trigger] fields[i]).shape) is Some
}

/// Whether `field` is the first declared column whose type no kind stands
/// for.
pub open spec fn first_unsupported(fields: Seq<FieldSpec>, field: int) -> bool {
    &&& 0 <= field < fields.len()
    &&& Kind::of_shape(fields[field].shape) is None
    &&& forall|j: int| 0 <= j < field ==> Kind::of_shape((#[trigger] fields[j]).shape) is Some
}

/// The schema of the table that the declared columns are built in: each
/// column by its name and the kind of its type, not nullable and in plain
/// encoding. A column whose type no kind stands for is refused with an
/// `ExternalTypeUnsupported` that reports the first such column.
pub fn table_schema(fields: &[OutField]) -> (r: Result<Vec<TableField>, PackError>)
    ensures
        match r {
            Ok(schema) => {
                &&& supported(specs_of(fields@))
                &&& schema@.len() == fields@.len()
                &&& forall|i: int|
                    0 <= i < schema@.len() ==> {
                        &&& (#[trigger] schema@[i]).name@ == fields@[i].name@
                        &&& Some(schema@[i].kind) == Kind::of_shape(shape_of(fields@[i].data_type))
                        &&& !schema@[i].nullable
                        &&& scheme_of(schema@[i].encoding) == Scheme::Plain
                    }
            },
            Err(e) => {
                &&& !supported(specs_of(fields@))
                &&& e matches PackError::ExternalTypeUnsupported { field }
                &&& first_unsupported(specs_of(fields@), field as int)
            },
        },
{
    let mut schema: Vec<TableField> = Vec::new();
    let mut i: usize = 0;
    while i < fields.len()
        invariant
            i <= fields.len(),
            schema@.len() == i,
            forall|j: int|
                0 <= j < i ==> Kind::of_shape((#[trigger] specs_of(fields@)[j]).shape) is Some,
            forall|j: int|
                0 <= j < i ==> {
                    &&& (#[trigger] schema@[j]).name@ == fields@[j].name@
                    &&& Some(schema@[j].kind) == Kind::of_shape(shape_of(fields@[j].data_type))
                    &&& !schema@[j].nullable
                    &&& scheme_of(schema@[j].encoding) == Scheme::Plain
                },
        decreases fields.len() - i,
    {
        match Kind::from_arrow(&fields[i].data_type) {
            Ok(kind) => {
                schema.push(
                    TableField {
                        name: fields[i].name.clone(),
                        kind,
                        nullable: false,
                        encoding: encoding_from(Scheme::Plain),
                    },
                );
            },
            Err(_) => {
                assert(Kind::of_shape(specs_of(fields@)[i as int].shape) is None);
                return Err(PackError::ExternalTypeUnsupported { field: i });
            },
        }
        i += 1;
    }
    Ok(schema)
}

/// What carrying out an operation has done, or leaves to be done.
pub enum Applied {
    /// The input was copied into the output column at this position.
    Copied(usize),
    /// The input goes to the transform, together with the output columns
    /// at these positions.
    Split(Vec<usize>),
}

/// Whether `targets` are the positions of the columns that a split
/// declares, in declared order.
pub open spec fn targets_of(targets: Seq<usize>, split: Split, names: Seq<Seq<char>>) -> bool {
    &&& targets.len() == split.output@.len()
    &&& forall|k: int|
        0 <= k < targets.len() ==> is_first(
            names,
            (#[trigger] split.output@[k]).name@,
            targets[k] as int,
        )
}

/// Whether `field` is the first column that a split declares and that is
/// not among `names`.
pub open spec fn first_undeclared(split: Split, names: Seq<Seq<char>>, field: int) -> bool {
    &&& 0 <= field < split.output@.len()
    &&& !names.contains(split.output@[field].name@)
    &&& forall|j: int| 0 <= j < field ==> names.contains((#[trigger] split.output@[j]).name@)
}

/// The positions of the output columns that a split declares, in declared
/// order; or, as the error, the position among the declared columns of the
/// first that the output lacks.
pub fn split_targets(split: &Split, packer: &Packer) -> (r: Result<Vec<usize>, usize>)
    ensures
        match r {
            Ok(targets) => targets_of(targets@, *split, names_of(packer.fields())),
            Err(field) => first_undeclared(*split, names_of(packer.fields()), field as int),
        },
{
    let mut targets: Vec<usize> = Vec::new();
    let mut k: usize = 0;
    while k < split.output.len()
        invariant
            k <= split.output.len(),
            targets@.len() == k,
            forall|j: int|
                0 <= j < k ==> is_first(
                    names_of(packer.fields()),
                    (#[trigger] split.output@[j]).name@,
                    targets@[j] as int,
                ),
        decreases split.output.len() - k,
    {
        match packer.find_field(split.output[k].name.as_str()) {
            Some((at, _)) => targets.push(at),
            None => {
                assert forall|j: int| 0 <= j < k implies names_of(packer.fields()).contains(
                    (#[trigger] split.output@[j]).name@,
                ) by {
                    assert(names_of(packer.fields())[targets@[j] as int] == split.output@[j].name@);
                }
                return Err(k);
            },
        }
        k += 1;
    }
    Ok(targets)
}

/// The position of the column of the packer's table that a copy of the
/// column named `name` goes to: that of the first field of the name, if the
/// table has a column there.
pub open spec fn target(packer: &Packer, name: Seq<char>) -> Option<int> {
    let names = names_of(packer.fields());
    if names.contains(name) && first_at(names, name) < packer.content().columns().len() {
        Some(first_at(names, name))
    } else {
        None
    }
}

/// Whether the packer `after` is as it was `before`, but for its table.
pub open spec fn same_policy(before: &Packer, after: &Packer) -> bool {
    &&& after.fields() == before.fields()
    &&& after.byte_threshold() == before.byte_threshold()
    &&& after.row_threshold() == before.row_threshold()
}

/// Whether the packer `after` is as it was `before`.
pub open spec fn untouched(before: &Packer, after: &Packer) -> bool {
    &&& same_policy(before, after)
    &&& after.content().unchanged(&before.content())
}

/// Whether the table `after` is `before` with `input` copied into column
/// `at`, and `r` says how that went: as [`Table::extend_column`] does it.
pub open spec fn copied(
    before: Table,
    after: Table,
    at: int,
    input: Column,
    r: Result<(), PackError>,
) -> bool {
    let old_column = before.columns()[at];
    let new_column = after.columns()[at];
    &&& after.differs_at(&before, at, 0)
    &&& match r {
        Ok(()) => {
            &&& old_column.copies(input)
            &&& input.text_bytes() <= old_column.room()
            &&& new_column.extended(old_column, input)
        },
        Err(e) => if old_column.copies(input) {
            &&& e == PackError::ValueRejected { column: at as usize }
            &&& input.text_bytes() > old_column.room()
            &&& exists|k: int| #[trigger] new_column.cut_short(old_column, input, k)
        } else {
            e == PackError::TypeMismatch { column: at as usize } && after.unchanged(&before)
        },
    }
}

impl Repack {
    /// Carries out operation `at` on its loaded input column, which is
    /// `None` where the column is of a type that no column of a table has.
    ///
    /// `ErrorOut` fails with a `UserAbort` that reports the operation.
    ///
    /// `Copy` copies the input into the output column of the operation's
    /// name, as [`Table::extend_column`] does, and refuses what that
    /// refuses, reporting the column. An output that lacks the column is
    /// refused with a `SchemaViolation` that reports the operation; an
    /// input of a type that no column has is then refused with
    /// `TypeMismatch`. The estimate of the table is left as it is.
    ///
    /// `Split` finds the output columns that it declares, as
    /// [`split_targets`] does, and leaves the call of the transform to the
    /// caller. A declared column that the output lacks is refused with a
    /// `SchemaViolation` that reports the operation and the column.
    ///
    /// A `Drop` cannot be carried out.
    pub fn apply(&self, at: usize, input: Option<&Column>, packer: &mut Packer) -> (r: Result<
        Applied,
        PackError,
    >)
        requires
            at < self.ops@.len(),
            self.ops@[at as int].action !is Drop,
        ensures
            same_policy(old(packer), final(packer)),
            match self.ops@[at as int].action {
                Action::ErrorOut => {
                    &&& r matches Err(e)
                    &&& e == PackError::UserAbort { op: at }
                    &&& untouched(old(packer), final(packer))
                },
                Action::Drop => false,
                Action::Copy => match target(old(packer), self.ops@[at as int].input@) {
                    None => {
                        &&& untouched(old(packer), final(packer))
                        &&& r matches Err(e)
                        &&& e == PackError::SchemaViolation(
                            Violation::MissingOutput { op: at, field: 0 },
                        )
                    },
                    Some(column) => match input {
                        None => {
                            &&& untouched(old(packer), final(packer))
                            &&& r matches Err(e)
                            &&& e == PackError::TypeMismatch { column: column as usize }
                        },
                        Some(loaded) => match r {
                            Ok(Applied::Copied(filled)) => filled == column && copied(
                                old(packer).content(),
                                final(packer).content(),
                                column,
                                *loaded,
                                Ok(()),
                            ),
                            Ok(Applied::Split(_)) => false,
                            Err(e) => copied(
                                old(packer).content(),
                                final(packer).content(),
                                column,
                                *loaded,
                                Err(e),
                            ),
                        },
                    },
                },
                Action::Split(split) => {
                    &&& untouched(old(packer), final(packer))
                    &&& match r {
                        Ok(Applied::Split(targets)) => targets_of(
                            targets@,
                            split,
                            names_of(old(packer).fields()),
                        ),
                        Ok(Applied::Copied(_)) => false,
                        Err(e) => {
                            &&& e matches PackError::SchemaViolation(
                                Violation::MissingOutput { op, field },
                            )
                            &&& op == at
                            &&& first_undeclared(split, names_of(old(packer).fields()), field as int)
                        },
                    }
                },
            },
    {
        let op = &self.ops[at];
        match &op.action {
            Action::ErrorOut => Err(PackError::UserAbort { op: at }),
            Action::Drop => Err(PackError::UserAbort { op: at }),
            Action::Copy => {
                let lost = PackError::SchemaViolation(Violation::MissingOutput { op: at, field: 0 });
                let column = match packer.find_field(op.input.as_str()) {
                    Some((column, _)) => column,
                    None => {
                        return Err(lost);
                    },
                };
                proof {
                    lemma_first_at(names_of(packer.fields()), op.input@, column as int);
                }
                let table = packer.table();
                if column >= table.width() {
                    return Err(lost);
                }
                match input {
                    None => Err(PackError::TypeMismatch { column }),
                    Some(loaded) => match table.extend_column(column, loaded) {
                        Ok(()) => Ok(Applied::Copied(column)),
                        Err(e) => Err(e),
                    },
                }
            },
            Action::Split(split) => match split_targets(split, packer) {
                Ok(targets) => Ok(Applied::Split(targets)),
                Err(field) => Err(PackError::SchemaViolation(Violation::MissingOutput { op: at, field })),
            },
        }
    }
}

/// What the driver of a run does next.
#[derive(Clone, Copy, Debug, PartialEq, Eq, Structural)]
pub enum Task {
    /// Ask the caller's filter about this row group.
    Decide(usize),
    /// Load the input column of this operation from this row group, and
    /// carry the operation out.
    Apply(usize, usize),
    /// Open the output: nothing of it exists before.
    Open,
    /// End this row group: finish the bulk of pushes and consider flushing.
    Close(usize),
    /// Finish the packer and the output: there is nothing more to read.
    Finish,
}

/// Where a run stands: which row group and which operation come next, and
/// whether the output is open.
///
/// Row groups are taken in the order of the source. Each is first put to
/// the caller's filter; an included row group has every operation carried
/// out in declared order and is then closed, a skipped one is passed over,
/// and a break ends the run with no row group left half built.
///
/// The output is opened as late as can be: before the first row group is
/// closed, or before the run is finished if none is. A run that fails
/// while it carries out the operations on its first row group has created
/// no output.
pub struct Driver {
    groups: usize,
    ops: usize,
    ahead: Task,
    open: bool,
}

impl Driver {
    /// The number of row groups of the source.
    pub closed spec fn row_groups(&self) -> usize {
        self.groups
    }

    /// The number of operations of the run.
    pub closed spec fn operations(&self) -> usize {
        self.ops
    }

    /// What lies ahead, the opening of the output aside: never `Open`.
    pub closed spec fn ahead(&self) -> Task {
        self.ahead
    }

    /// Whether the output has been opened.
    pub closed spec fn is_open(&self) -> bool {
        self.open
    }

    /// What is done next: what lies ahead, but first the opening of the
    /// output where that is the closing of a row group or the finish and
    /// the output is not open.
    pub open spec fn task(&self) -> Task {
        if !self.is_open() && (self.ahead() is Close || self.ahead() is Finish) {
            Task::Open
        } else {
            self.ahead()
        }
    }

    /// Whether what lies ahead is a task of this run.
    pub open spec fn wf(&self) -> bool {
        match self.ahead() {
            Task::Decide(group) => group < self.row_groups(),
            Task::Apply(group, op) => group < self.row_groups() && op < self.operations(),
            Task::Open => false,
            Task::Close(group) => group < self.row_groups(),
            Task::Finish => true,
        }
    }

    /// Whether the driver is `before` but for what lies ahead.
    pub open spec fn same_run(&self, before: &Driver) -> bool {
        &&& self.row_groups() == before.row_groups()
        &&& self.operations() == before.operations()
        &&& self.is_open() == before.is_open()
    }

    /// The task that begins the row group `group`, or ends the run after
    /// the last one.
    pub open spec fn entering(group: int, groups: usize) -> Task {
        if group < groups {
            Task::Decide(group as usize)
        } else {
            Task::Finish
        }
    }

    /// The task that follows a decision about row group `group`.
    pub open spec fn after_decision(
        decision: LoopDecision,
        group: usize,
        groups: usize,
        ops: usize,
    ) -> Task {
        match decision {
            LoopDecision::Include => if ops > 0 {
                Task::Apply(group, 0)
            } else {
                Task::Close(group)
            },
            LoopDecision::Skip => Driver::entering(group + 1, groups),
            LoopDecision::Break => Task::Finish,
        }
    }

    /// The task that follows operation `op` of row group `group`.
    pub open spec fn after_operation(group: usize, op: usize, ops: usize) -> Task {
        if op + 1 < ops {
            Task::Apply(group, (op + 1) as usize)
        } else {
            Task::Close(group)
        }
    }

    /// The start of a run over `groups` row groups with `ops` operations,
    /// with the output not open.
    pub fn new(groups: usize, ops: usize) -> (d: Driver)
        ensures
            d.wf(),
            d.row_groups() == groups,
            d.operations() == ops,
            !d.is_open(),
            d.ahead() == Driver::entering(0, groups),
    {
        let ahead = if groups > 0 {
            Task::Decide(0)
        } else {
            Task::Finish
        };
        Driver { groups, ops, ahead, open: false }
    }

    /// What is done next.
    pub fn next(&self) -> (t: Task)
        ensures
            t == self.task(),
    {
        if self.open {
            self.ahead
        } else {
            match self.ahead {
                Task::Close(_) => Task::Open,
                Task::Finish => Task::Open,
                other => other,
            }
        }
    }

    /// Takes the caller's decision about the row group that was put to it.
    pub fn decided(&mut self, decision: LoopDecision)
        requires
            old(self).wf(),
            old(self).task() is Decide,
        ensures
            final(self).wf(),
            final(self).same_run(old(self)),
            final(self).ahead() == Driver::after_decision(
                decision,
                old(self).task()->Decide_0,
                old(self).row_groups(),
                old(self).operations(),
            ),
    {
        let group = match self.ahead {
            Task::Decide(group) => group,
            _ => 0,
        };
        self.ahead = match decision {
            LoopDecision::Include => if self.ops > 0 {
                Task::Apply(group, 0)
            } else {
                Task::Close(group)
            },
            LoopDecision::Skip => if group + 1 < self.groups {
                Task::Decide(group + 1)
            } else {
                Task::Finish
            },
            LoopDecision::Break => Task::Finish,
        };
    }

    /// Records that the operation that was due has been carried out.
    pub fn applied(&mut self)
        requires
            old(self).wf(),
            old(self).task() is Apply,
        ensures
            final(self).wf(),
            final(self).same_run(old(self)),
            final(self).ahead() == Driver::after_operation(
                old(self).task()->Apply_0,
                old(self).task()->Apply_1,
                old(self).operations(),
            ),
    {
        self.ahead = match self.ahead {
            Task::Apply(group, op) => if op + 1 < self.ops {
                Task::Apply(group, op + 1)
            } else {
                Task::Close(group)
            },
            other => other,
        };
    }

    /// Records that the output has been opened.
    pub fn opened(&mut self)
        requires
            old(self).wf(),
            old(self).task() is Open,
        ensures
            final(self).wf(),
            final(self).row_groups() == old(self).row_groups(),
            final(self).operations() == old(self).operations(),
            final(self).is_open(),
            final(self).ahead() == old(self).ahead(),
            final(self).task() == old(self).ahead(),
    {
        self.open = true;
    }

    /// Records that the row group that was due has been closed.
    pub fn closed(&mut self)
        requires
            old(self).wf(),
            old(self).task() is Close,
        ensures
            final(self).wf(),
            final(self).same_run(old(self)),
            final(self).ahead() == Driver::entering(
                old(self).task()->Close_0 + 1,
                old(self).row_groups(),
            ),
    {
        self.ahead = match self.ahead {
            Task::Close(group) => if group + 1 < self.groups {
                Task::Decide(group + 1)
            } else {
                Task::Finish
            },
            other => other,
        };
    }
}

/// While the output is not open, no row group is closed and the run is not
/// finished: whatever fails before the output is opened has created none.
pub proof fn lemma_nothing_written_before_opening(d: Driver)
    requires
        !d.is_open(),
    ensures
        d.task() !is Close,
        d.task() !is Finish,
{
}

} // verus!
