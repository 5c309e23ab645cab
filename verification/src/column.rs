//! Column-major storage: typed columns and the batches that group them.

use vstd::prelude::*;

use crate::schema::{ColumnType, FieldV, Schema};

verus! {

/// Mathematical image of a [`Column`].
pub enum ColumnV {
    Int64(Seq<i64>),
    Float64(Seq<Seq<char>>),
    Utf8(Seq<Seq<char>>),
}

impl ColumnV {
    /// The number of values in the column.
    pub open spec fn len(self) -> nat {
        match self {
            ColumnV::Int64(values) => values.len(),
            ColumnV::Float64(values) => values.len(),
            ColumnV::Utf8(values) => values.len(),
        }
    }

    /// The column's variant agrees with a declared column type.
    pub open spec fn matches(self, data_type: ColumnType) -> bool {
        match self {
            ColumnV::Int64(_) => data_type == ColumnType::Int64,
            ColumnV::Float64(_) => data_type == ColumnType::Float64,
            ColumnV::Utf8(_) => data_type == ColumnType::Utf8,
        }
    }
}

/// One contiguous array of values, all of one declared type.
///
/// A `Float64` column holds each value as its validated decimal text rather
/// than as machine floating point: the library's own logic only ever checks
/// the format and counts values, and consumers that want machine numbers
/// (for instance a columnar in-memory format) cast the text at the boundary.
#[derive(Debug)]
pub enum Column {
    Int64(Vec<i64>),
    Float64(Vec<String>),
    Utf8(Vec<String>),
}

impl View for Column {
    type V = ColumnV;

    open spec fn view(&self) -> ColumnV {
        match self {
            Column::Int64(values) => ColumnV::Int64(values@),
            Column::Float64(values) => ColumnV::Float64(values.deep_view()),
            Column::Utf8(values) => ColumnV::Utf8(values.deep_view()),
        }
    }
}

impl DeepView for Column {
    type V = ColumnV;

    open spec fn deep_view(&self) -> ColumnV {
        self.view()
    }
}

impl Column {
    /// The number of values in the column.
    pub fn len(&self) -> (r: usize)
        ensures
            r == self@.len(),
    {
        match self {
            Column::Int64(values) => values.len(),
            Column::Float64(values) => values.len(),
            Column::Utf8(values) => values.len(),
        }
    }

    /// A copy of this column.
    pub fn duplicate(&self) -> (r: Column)
        ensures
            r@ == self@,
    {
        match self {
            Column::Int64(values) => {
                let mut out: Vec<i64> = Vec::new();
                let mut i: usize = 0;
                while i < values.len()
                    invariant
                        i <= values.len(),
                        out.len() == i,
                        forall|k: int| 0 <= k < i ==> out@[k] == values@[k],
                    decreases values.len() - i,
                {
                    out.push(values[i]);
                    i = i + 1;
                }
                proof {
                    assert(out@ =~= values@);
                }
                Column::Int64(out)
            },
            Column::Float64(values) => Column::Float64(duplicate_strings(values)),
            Column::Utf8(values) => Column::Utf8(duplicate_strings(values)),
        }
    }
}

/// A copy of a vector of strings.
fn duplicate_strings(values: &Vec<String>) -> (r: Vec<String>)
    ensures
        r.deep_view() == values.deep_view(),
{
    let mut out: Vec<String> = Vec::new();
    let mut i: usize = 0;
    while i < values.len()
        invariant
            i <= values.len(),
            out.len() == i,
            forall|k: int| 0 <= k < i ==> out@[k]@ == values@[k]@,
        decreases values.len() - i,
    {
        out.push(values[i].clone());
        i = i + 1;
    }
    proof {
        assert(out.deep_view() =~= values.deep_view());
    }
    out
}

/// Mathematical image of a [`Batch`].
pub struct BatchV {
    pub schema: Seq<FieldV>,
    pub columns: Seq<ColumnV>,
}

impl BatchV {
    /// The number of rows: the length shared by the batch's columns.
    pub open spec fn num_rows(self) -> nat {
        if self.columns.len() == 0 {
            0
        } else {
            self.columns[0].len()
        }
    }

    /// One column per schema field, each of the declared type, all of one
    /// length.
    pub open spec fn wf(self) -> bool {
        &&& self.columns.len() == self.schema.len()
        &&& forall|j: int|
            0 <= j < self.columns.len() ==> (#[trigger] self.columns[j]).matches(
                self.schema[j].data_type,
            )
        &&& forall|j: int|
            0 <= j < self.columns.len() ==> (#[trigger] self.columns[j]).len() == self.num_rows()
    }
}

/// A chunk of rows stored column-major under one schema.
#[derive(Debug)]
pub struct Batch {
    schema: Schema,
    columns: Vec<Column>,
}

impl View for Batch {
    type V = BatchV;

    closed spec fn view(&self) -> BatchV {
        BatchV { schema: self.schema@, columns: self.columns.deep_view() }
    }
}

impl DeepView for Batch {
    type V = BatchV;

    open spec fn deep_view(&self) -> BatchV {
        self.view()
    }
}

impl Batch {
    /// Groups already-built columns under a schema.
    ///
    /// Well-formedness (one column per field, of the declared types, all of
    /// one length) is the caller's lookout; the dataset loaders only ever
    /// produce well-formed batches.
    pub fn new(schema: Schema, columns: Vec<Column>) -> (r: Batch)
        ensures
            r@ == (BatchV { schema: schema@, columns: columns.deep_view() }),
    {
        Batch { schema, columns }
    }

    /// The number of rows in the batch.
    pub fn num_rows(&self) -> (r: usize)
        ensures
            r == self@.num_rows(),
    {
        if self.columns.len() == 0 {
            0
        } else {
            self.columns[0].len()
        }
    }

    /// The number of columns in the batch.
    pub fn num_columns(&self) -> (r: usize)
        ensures
            r == self@.columns.len(),
    {
        self.columns.len()
    }

    /// The batch's schema.
    pub fn schema(&self) -> (r: &Schema)
        ensures
            r@ == self@.schema,
    {
        &self.schema
    }

    /// The column at position `j`.
    pub fn column(&self, j: usize) -> (r: &Column)
        requires
            j < self@.columns.len(),
        ensures
            r@ == self@.columns[j as int],
    {
        &self.columns[j]
    }

    /// A copy of this batch.
    pub fn duplicate(&self) -> (r: Batch)
        ensures
            r@ == self@,
    {
        let mut columns: Vec<Column> = Vec::new();
        let mut j: usize = 0;
        while j < self.columns.len()
            invariant
                j <= self.columns.len(),
                columns.len() == j,
                forall|k: int| 0 <= k < j ==> columns@[k]@ == self.columns@[k]@,
            decreases self.columns.len() - j,
        {
            columns.push(self.columns[j].duplicate());
            j = j + 1;
        }
        proof {
            assert(columns.deep_view() =~= self.columns.deep_view());
        }
        Batch { schema: self.schema.duplicate(), columns }
    }
}

} // verus!
