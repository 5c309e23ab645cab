//! The repository: a name-indexed dispatcher over the bundled datasets.
//!
//! The mapping from name to loader is constant and closed: nothing is added
//! or removed at runtime, and every call reconstructs its table from the
//! bundled bytes.

use vstd::prelude::*;

use crate::datatables::boston;
use crate::datatables::iris;
use crate::error::{LoadError, LoadErrorV};
use crate::table::{table_result_view, DataSet, DataTable, TableV};
use crate::text::str_eq;

verus! {

/// The dataset names the repository knows.
pub open spec fn known_dataset(name: Seq<char>) -> bool {
    name == "iris"@ || name == "boston"@
}

/// What a lookup yields: the named dataset's load outcome, or `NotFound`
/// carrying the requested name.
pub open spec fn load_table_spec(name: Seq<char>) -> Result<TableV, LoadErrorV> {
    if name == "iris"@ {
        iris::load_result()
    } else if name == "boston"@ {
        boston::load_result()
    } else {
        Err(LoadErrorV::NotFound(name))
    }
}

/// A collection of loadable [`DataTable`]s.
pub struct Repo {}

impl Repo {
    /// The default repository.
    ///
    /// Currently this is the only repository. All of its tables are bundled
    /// into the binary, so loading needs no network connection.
    pub fn default() -> (r: Repo) {
        Repo {  }
    }

    /// Loads the [`DataTable`] with the matching name, or reports
    /// `NotFound` with the requested name; a known dataset's own failure
    /// passes through unchanged.
    pub fn load_table(&self, name: &str) -> (r: Result<DataTable, LoadError>)
        ensures
            table_result_view(r) == load_table_spec(name@),
    {
        if str_eq(name, "iris") {
            iris::load_table()
        } else if str_eq(name, "boston") {
            boston::load_table()
        } else {
            Err(LoadError::NotFound(name.to_owned()))
        }
    }

    /// Loads the [`DataSet`] with the matching name. No data sets are
    /// bundled yet, so every lookup reports `NotFound` with the requested
    /// name.
    pub fn load_data_set(&self, name: &str) -> (r: Result<DataSet, LoadError>)
        ensures
            r is Err,
            match r {
                Err(e) => e@ == LoadErrorV::NotFound(name@),
                Ok(_) => false,
            },
    {
        Err(LoadError::NotFound(name.to_owned()))
    }
}

/// The repository never succeeds for a name outside its known set: the
/// outcome is `NotFound`, carrying that exact name.
pub proof fn lemma_unknown_name_not_found(name: Seq<char>)
    requires
        !known_dataset(name),
    ensures
        load_table_spec(name) == Err::<TableV, LoadErrorV>(LoadErrorV::NotFound(name)),
{
}

/// A known lookup that succeeds carries the dataset's declared schema: a
/// well-formed table under the requested name, with five columns for the
/// iris table and fourteen for the Boston housing table, one per declared
/// field.
pub proof fn lemma_known_dataset_shape(name: Seq<char>)
    requires
        known_dataset(name),
        load_table_spec(name) is Ok,
    ensures
        load_table_spec(name)->Ok_0.wf(),
        load_table_spec(name)->Ok_0.name == name,
        name == "iris"@ ==> load_table_spec(name)->Ok_0.schema() == iris::schema_spec()
            && load_table_spec(name)->Ok_0.num_columns() == 5,
        name == "boston"@ ==> load_table_spec(name)->Ok_0.schema() == boston::schema_spec()
            && load_table_spec(name)->Ok_0.num_columns() == 14,
{
    broadcast use vstd::string::group_string_axioms;

    reveal_strlit("iris");
    reveal_strlit("boston");
    assert("iris"@.len() == 4);
    assert("boston"@.len() == 6);
    if name == "iris"@ {
        crate::load::lemma_load_shape(
            "iris"@,
            iris::schema_spec(),
            true,
            vstd::utf8::encode_utf8(iris::IRIS_DATA@),
            vstd::utf8::encode_utf8(iris::IRIS_DOC@),
        );
    } else {
        crate::load::lemma_load_shape(
            "boston"@,
            boston::schema_spec(),
            false,
            boston::data_spec(),
            vstd::utf8::encode_utf8(boston::BOSTON_DOC@),
        );
        assert(boston::schema_spec().len() == 14);
    }
}

/// Lookup is deterministic: two outcomes of loading the same name are the
/// same outcome, and two loaded tables in particular agree in schema, row
/// count, column count and documentation.
pub proof fn lemma_load_table_idempotent(
    name: Seq<char>,
    r1: Result<TableV, LoadErrorV>,
    r2: Result<TableV, LoadErrorV>,
)
    requires
        r1 == load_table_spec(name),
        r2 == load_table_spec(name),
    ensures
        r1 == r2,
        r1 is Ok ==> r1->Ok_0.schema() == r2->Ok_0.schema(),
        r1 is Ok ==> r1->Ok_0.num_rows() == r2->Ok_0.num_rows(),
        r1 is Ok ==> r1->Ok_0.num_columns() == r2->Ok_0.num_columns(),
        r1 is Ok ==> r1->Ok_0.doc == r2->Ok_0.doc,
{
}

} // verus!

