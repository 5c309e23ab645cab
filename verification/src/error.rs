//! Typed failures of table lookup, parsing and construction.

use vstd::prelude::*;

verus! {

/// The required table field that a build found missing or empty.
#[derive(Clone, Copy, Debug, PartialEq, Eq, Structural)]
pub enum RequiredField {
    /// The table's name.
    Name,
    /// The table's batches.
    Batches,
}

/// What is wrong with one row of delimited text.
#[derive(Clone, Copy, Debug, PartialEq, Eq, Structural)]
pub enum RowFault {
    /// The row splits into `found` fields instead of one per schema column.
    Width { found: usize },
    /// The field at `column` does not parse as that column's declared type.
    Cell { column: usize },
}

/// Mathematical image of a [`RowFault`], with unbounded indices.
pub enum RowFaultV {
    Width { found: int },
    Cell { column: int },
}

impl View for RowFault {
    type V = RowFaultV;

    open spec fn view(&self) -> RowFaultV {
        match self {
            RowFault::Width { found } => RowFaultV::Width { found: *found as int },
            RowFault::Cell { column } => RowFaultV::Cell { column: *column as int },
        }
    }
}

/// Failure of a dataset lookup or load.
///
/// A caller can always tell "no such dataset" (`NotFound`) apart from
/// "the dataset exists but its embedded bytes are defective" (`Parse`,
/// `Internal`) and from a table built without its required fields
/// (`Validation`).
#[derive(Debug)]
pub enum LoadError {
    /// The requested dataset name is unknown; carries that name.
    NotFound(String),
    /// A data row (counted from zero, a header row excluded) does not match
    /// the schema.
    Parse { row: usize, fault: RowFault },
    /// A required field was missing or empty when a table was built.
    Validation(RequiredField),
    /// The embedded documentation bytes are not valid text.
    Internal,
}

/// Mathematical image of a [`LoadError`].
pub enum LoadErrorV {
    NotFound(Seq<char>),
    Parse { row: int, fault: RowFaultV },
    Validation(RequiredField),
    Internal,
}

impl View for LoadError {
    type V = LoadErrorV;

    open spec fn view(&self) -> LoadErrorV {
        match self {
            LoadError::NotFound(name) => LoadErrorV::NotFound(name@),
            LoadError::Parse { row, fault } => LoadErrorV::Parse {
                row: *row as int,
                fault: fault@,
            },
            LoadError::Validation(field) => LoadErrorV::Validation(*field),
            LoadError::Internal => LoadErrorV::Internal,
        }
    }
}

impl DeepView for LoadError {
    type V = LoadErrorV;

    open spec fn deep_view(&self) -> LoadErrorV {
        self.view()
    }
}

} // verus!
