//! Incremental construction of columnar datasets under bounded memory.
//!
//! Rows are accumulated column by column in a schema-checked [`Table`] of
//! arrow2 builders. A [`Packer`] decides when the accumulated rows are
//! handed on as a batch, and a [`Writer`] keeps the books of the encoder
//! tasks that take the batches. The [`repack`] module remaps an existing
//! columnar file into a new one, column by column.
//!
//! The threads, channels and files themselves are the caller's: this
//! library decides, and says what it decides about.

pub mod builders;
pub mod column;
pub mod datatypes;
pub mod error;
pub mod mem;
pub mod packer;
pub mod repack;
pub mod schema;
pub mod table;
pub mod writer;

pub use crate::column::VarArray;
pub use crate::error::PackError;
pub use crate::mem::MemUsage;
pub use crate::packer::Packer;
pub use crate::schema::Kind;
pub use crate::schema::TableField;
pub use crate::table::Table;
pub use crate::writer::Writer;
