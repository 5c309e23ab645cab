//! The loaded table, the builder that validates its construction, and named
//! groups of tables.

use vstd::prelude::*;

use crate::column::{Batch, BatchV};
use crate::error::{LoadError, LoadErrorV, RequiredField};
use crate::schema::{FieldV, Schema};

verus! {

/// The total number of rows over a run of batches.
pub open spec fn rows_total(batches: Seq<BatchV>) -> int
    decreases batches.len(),
{
    if batches.len() == 0 {
        0
    } else {
        batches.first().num_rows() + rows_total(batches.drop_first())
    }
}

pub proof fn lemma_rows_total_nonneg(batches: Seq<BatchV>)
    ensures
        rows_total(batches) >= 0,
    decreases batches.len(),
{
    if batches.len() > 0 {
        lemma_rows_total_nonneg(batches.drop_first());
    }
}

pub proof fn lemma_rows_total_split(batches: Seq<BatchV>, i: int)
    requires
        0 <= i <= batches.len(),
    ensures
        rows_total(batches) == rows_total(batches.take(i)) + rows_total(batches.skip(i)),
    decreases i,
{
    if i == 0 {
        assert(batches.take(0) =~= Seq::<BatchV>::empty());
        assert(batches.skip(0) =~= batches);
    } else {
        lemma_rows_total_split(batches.drop_first(), i - 1);
        assert(batches.take(i).drop_first() =~= batches.drop_first().take(i - 1));
        assert(batches.skip(i) =~= batches.drop_first().skip(i - 1));
        assert(batches.take(i).first() == batches.first());
    }
}

/// Mathematical image of a [`DataTable`].
pub struct TableV {
    pub name: Seq<char>,
    pub batches: Seq<BatchV>,
    pub doc: Option<Seq<char>>,
}

impl TableV {
    /// The number of rows, summed over the table's batches.
    pub open spec fn num_rows(self) -> int {
        rows_total(self.batches)
    }

    /// The number of columns, taken from the first batch.
    pub open spec fn num_columns(self) -> nat {
        self.batches[0].columns.len()
    }

    /// The table's schema, taken from the first batch.
    pub open spec fn schema(self) -> Seq<FieldV> {
        self.batches[0].schema
    }

    /// What the builder guarantees: a non-empty name and at least one batch.
    pub open spec fn wf(self) -> bool {
        self.name.len() > 0 && self.batches.len() > 0
    }
}

/// A table with data: one or more column-major batches under one schema,
/// a name, and optional documentation.
///
/// Constructed once, by [`DataTableBuilder`] or a dataset loader, and
/// immutable thereafter.
#[derive(Debug)]
pub struct DataTable {
    batches: Vec<Batch>,
    doc: Option<String>,
    name: String,
}

impl View for DataTable {
    type V = TableV;

    closed spec fn view(&self) -> TableV {
        TableV {
            name: self.name@,
            batches: self.batches.deep_view(),
            doc: self.doc.deep_view(),
        }
    }
}

impl DeepView for DataTable {
    type V = TableV;

    open spec fn deep_view(&self) -> TableV {
        self.view()
    }
}

impl DataTable {
    /// The table's name.
    pub fn name(&self) -> (r: &str)
        ensures
            r@ == self@.name,
    {
        self.name.as_str()
    }

    /// The table's documentation, if any shipped with it.
    pub fn doc(&self) -> (r: Option<&str>)
        ensures
            match r {
                Some(text) => self@.doc == Some(text@),
                None => self@.doc is None,
            },
    {
        match &self.doc {
            Some(text) => Some(text.as_str()),
            None => None,
        }
    }

    /// The content of the table: a copy of its batches, safe for the caller
    /// to keep past the table's lifetime.
    ///
    /// Every batch of a loader-built table shares the table's schema.
    pub fn data(&self) -> (r: Vec<Batch>)
        ensures
            r.deep_view() == self@.batches,
    {
        let mut out: Vec<Batch> = Vec::new();
        let mut i: usize = 0;
        while i < self.batches.len()
            invariant
                i <= self.batches.len(),
                out.len() == i,
                forall|k: int| 0 <= k < i ==> out@[k]@ == self.batches@[k]@,
            decreases self.batches.len() - i,
        {
            out.push(self.batches[i].duplicate());
            i = i + 1;
        }
        proof {
            assert(out.deep_view() =~= self.batches.deep_view());
        }
        out
    }

    /// The content of the table, borrowed.
    pub fn data_ref(&self) -> (r: &Vec<Batch>)
        ensures
            r.deep_view() == self@.batches,
    {
        &self.batches
    }

    /// The number of rows in the table.
    pub fn num_rows(&self) -> (r: usize)
        requires
            self@.num_rows() <= usize::MAX,
        ensures
            r == self@.num_rows(),
    {
        let ghost all = self.batches.deep_view();
        let mut total: usize = 0;
        let mut i: usize = 0;
        while i < self.batches.len()
            invariant
                i <= self.batches.len(),
                all == self.batches.deep_view(),
                rows_total(all) <= usize::MAX,
                total == rows_total(all.take(i as int)),
            decreases self.batches.len() - i,
        {
            proof {
                lemma_rows_total_split(all, i + 1);
                lemma_rows_total_nonneg(all.skip(i + 1));
                lemma_rows_total_split(all.take(i + 1), i as int);
                assert(all.take(i + 1).take(i as int) =~= all.take(i as int));
                assert(all.take(i + 1).skip(i as int) =~= seq![all[i as int]]);
                assert(rows_total(seq![all[i as int]]) == all[i as int].num_rows() + rows_total(
                    seq![all[i as int]].drop_first(),
                ));
                assert(seq![all[i as int]].drop_first() =~= Seq::<BatchV>::empty());
            }
            total = total + self.batches[i].num_rows();
            i = i + 1;
        }
        proof {
            assert(all.take(self.batches.len() as int) =~= all);
        }
        total
    }

    /// The number of columns in the table, from its first batch.
    pub fn num_columns(&self) -> (r: usize)
        requires
            self@.batches.len() > 0,
        ensures
            r == self@.num_columns(),
    {
        self.batches[0].num_columns()
    }

    /// The schema of the table, from its first batch.
    pub fn schema(&self) -> (r: &Schema)
        requires
            self@.batches.len() > 0,
        ensures
            r@ == self@.schema(),
    {
        self.batches[0].schema()
    }
}

/// Mathematical image of a [`DataTableBuilder`].
pub struct BuilderV {
    pub batches: Option<Seq<BatchV>>,
    pub doc: Option<Seq<char>>,
    pub name: Option<Seq<char>>,
}

/// What building yields: the table, or the required field that is missing
/// or empty. Batches are demanded first, then the name; documentation is
/// optional.
pub open spec fn build_spec(b: BuilderV) -> Result<TableV, LoadErrorV> {
    if b.batches is None || b.batches.unwrap().len() == 0 {
        Err(LoadErrorV::Validation(RequiredField::Batches))
    } else if b.name is None || b.name.unwrap().len() == 0 {
        Err(LoadErrorV::Validation(RequiredField::Name))
    } else {
        Ok(TableV { name: b.name.unwrap(), batches: b.batches.unwrap(), doc: b.doc })
    }
}

/// Maps an executable build or load outcome to its mathematical image.
pub open spec fn table_result_view(r: Result<DataTable, LoadError>) -> Result<
    TableV,
    LoadErrorV,
> {
    match r {
        Ok(t) => Ok(t@),
        Err(e) => Err(e@),
    }
}

/// Accumulates the parts of a [`DataTable`] and validates them on build.
///
/// `name` and `batches` must both be present and non-empty; `doc` may be
/// absent. The builder is consumed by a successful or failed build.
#[derive(Debug)]
pub struct DataTableBuilder {
    batches: Option<Vec<Batch>>,
    doc: Option<String>,
    name: Option<String>,
}

impl View for DataTableBuilder {
    type V = BuilderV;

    closed spec fn view(&self) -> BuilderV {
        BuilderV {
            batches: match &self.batches {
                Some(b) => Some(b.deep_view()),
                None => None,
            },
            doc: self.doc.deep_view(),
            name: match &self.name {
                Some(n) => Some(n@),
                None => None,
            },
        }
    }
}

impl DataTableBuilder {
    /// An empty builder: no name, no batches, no documentation.
    pub fn new() -> (r: DataTableBuilder)
        ensures
            r@ == (BuilderV { batches: None, doc: None, name: None }),
    {
        DataTableBuilder { batches: None, doc: None, name: None }
    }

    /// Sets the table's name.
    pub fn with_name(self, name: String) -> (r: DataTableBuilder)
        ensures
            r@ == (BuilderV { name: Some(name@), ..self@ }),
    {
        DataTableBuilder { name: Some(name), ..self }
    }

    /// Sets the table's documentation.
    pub fn with_doc(self, doc: String) -> (r: DataTableBuilder)
        ensures
            r@ == (BuilderV { doc: Some(doc@), ..self@ }),
    {
        DataTableBuilder { doc: Some(doc), ..self }
    }

    /// Sets the table's batches.
    pub fn with_batches(self, batches: Vec<Batch>) -> (r: DataTableBuilder)
        ensures
            r@ == (BuilderV { batches: Some(batches.deep_view()), ..self@ }),
    {
        DataTableBuilder { batches: Some(batches), ..self }
    }

    /// Builds the table, or reports the required field that is missing or
    /// empty.
    pub fn build(self) -> (r: Result<DataTable, LoadError>)
        ensures
            table_result_view(r) == build_spec(self@),
    {
        let batches = match self.batches {
            Some(batches) => batches,
            None => {
                return Err(LoadError::Validation(RequiredField::Batches));
            },
        };
        if batches.len() == 0 {
            return Err(LoadError::Validation(RequiredField::Batches));
        }
        let name = match self.name {
            Some(name) => name,
            None => {
                return Err(LoadError::Validation(RequiredField::Name));
            },
        };
        if name.as_str().is_empty() {
            return Err(LoadError::Validation(RequiredField::Name));
        }
        Ok(DataTable { name, batches, doc: self.doc })
    }
}

/// Mathematical image of a [`DataSet`].
pub struct DataSetV {
    pub tables: Seq<TableV>,
    pub doc: Option<Seq<char>>,
    pub name: Seq<char>,
}

/// A named group of tables with optional documentation.
#[derive(Debug)]
pub struct DataSet {
    tables: Vec<DataTable>,
    doc: Option<String>,
    name: String,
}

impl View for DataSet {
    type V = DataSetV;

    closed spec fn view(&self) -> DataSetV {
        DataSetV {
            tables: self.tables.deep_view(),
            doc: self.doc.deep_view(),
            name: self.name@,
        }
    }
}

impl DataSet {
    pub fn new(name: String, tables: Vec<DataTable>, doc: Option<String>) -> (r: DataSet)
        ensures
            r@ == (DataSetV { tables: tables.deep_view(), doc: doc.deep_view(), name: name@ }),
    {
        DataSet { tables, name, doc }
    }

    /// The set's name.
    pub fn name(&self) -> (r: &str)
        ensures
            r@ == self@.name,
    {
        self.name.as_str()
    }

    /// The set's documentation, if any.
    pub fn doc(&self) -> (r: Option<&str>)
        ensures
            match r {
                Some(text) => self@.doc == Some(text@),
                None => self@.doc is None,
            },
    {
        match &self.doc {
            Some(text) => Some(text.as_str()),
            None => None,
        }
    }

    /// The set's tables.
    pub fn tables(&self) -> (r: &Vec<DataTable>)
        ensures
            r.deep_view() == self@.tables,
    {
        &self.tables
    }
}

} // verus!
