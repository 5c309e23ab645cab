//! Loaders for a small set of well-known tabular datasets.
//!
//! Each dataset ships inside the library as delimited text together with a
//! piece of free-text documentation. A lookup by name — for instance
//! `Repo::default().load_table("iris")` — parses the text against the
//! dataset's fixed, explicit column schema and returns an immutable,
//! column-major [`DataTable`]. Nothing is inferred from the raw bytes, no
//! network connection is needed, and every call rebuilds its table from the
//! bundled constants.
//!
//! Supported datasets:
//!
//! - `iris`
//! - `boston`

pub mod column;
pub mod csv;
pub mod datatables;
pub mod error;
pub mod load;
pub mod repo;
pub mod schema;
pub mod table;
pub mod text;

pub use column::{Batch, BatchV, Column, ColumnV};
pub use error::{LoadError, LoadErrorV, RequiredField, RowFault, RowFaultV};
pub use repo::Repo;
pub use schema::{ColumnType, Field, FieldV, Schema};
pub use table::{BuilderV, DataSet, DataSetV, DataTable, DataTableBuilder, TableV};
