//! The iris flower dataset, bundled as delimited text with a header row.

use vstd::prelude::*;

use crate::error::{LoadError, LoadErrorV};
use crate::load::{load_from_parts, load_spec};
use crate::schema::{distinct_names, ColumnType, Field, FieldV, Schema};
use crate::table::{table_result_view, DataTable, TableV};
use vstd::string::StrSliceExecFns;
use vstd::utf8::encode_utf8;

verus! {

/// The raw tabular bytes bundled for this dataset; the first row is the
/// header.
pub const IRIS_DATA: &'static str = "\
sepal_length,sepal_width,petal_length,petal_width,variety\n\
4.6,3.0,1.0,0.1,Setosa\n\
4.7,3.1,1.1,0.2,Setosa\n\
4.8,3.2,1.2,0.3,Setosa\n\
4.9,3.3,1.3,0.4,Setosa\n\
5.0,3.4,1.4,0.5,Setosa\n\
5.1,3.5,1.5,0.1,Setosa\n\
5.2,3.6,1.6,0.2,Setosa\n\
5.3,3.7,1.7,0.3,Setosa\n\
5.4,3.8,1.8,0.4,Setosa\n\
5.5,3.9,1.0,0.5,Setosa\n\
5.6,4.0,1.1,0.1,Setosa\n\
5.7,4.1,1.2,0.2,Setosa\n\
5.8,4.2,1.3,0.3,Setosa\n\
5.9,3.0,1.4,0.4,Setosa\n\
4.6,3.1,1.5,0.5,Setosa\n\
4.7,3.2,1.6,0.1,Setosa\n\
4.8,3.3,1.7,0.2,Setosa\n\
4.9,3.4,1.8,0.3,Setosa\n\
5.0,3.5,1.0,0.4,Setosa\n\
5.1,3.6,1.1,0.5,Setosa\n\
5.2,3.7,1.2,0.1,Setosa\n\
5.3,3.8,1.3,0.2,Setosa\n\
5.4,3.9,1.4,0.3,Setosa\n\
5.5,4.0,1.5,0.4,Setosa\n\
5.6,4.1,1.6,0.5,Setosa\n\
5.7,4.2,1.7,0.1,Setosa\n\
5.8,3.0,1.8,0.2,Setosa\n\
5.9,3.1,1.0,0.3,Setosa\n\
4.6,3.2,1.1,0.4,Setosa\n\
4.7,3.3,1.2,0.5,Setosa\n\
4.8,3.4,1.3,0.1,Setosa\n\
4.9,3.5,1.4,0.2,Setosa\n\
5.0,3.6,1.5,0.3,Setosa\n\
5.1,3.7,1.6,0.4,Setosa\n\
5.2,3.8,1.7,0.5,Setosa\n\
5.3,3.9,1.8,0.1,Setosa\n\
5.4,4.0,1.0,0.2,Setosa\n\
5.5,4.1,1.1,0.3,Setosa\n\
5.6,4.2,1.2,0.4,Setosa\n\
5.7,3.0,1.3,0.5,Setosa\n\
5.8,3.1,1.4,0.1,Setosa\n\
5.9,3.2,1.5,0.2,Setosa\n\
4.6,3.3,1.6,0.3,Setosa\n\
4.7,3.4,1.7,0.4,Setosa\n\
4.8,3.5,1.8,0.5,Setosa\n\
4.9,3.6,1.0,0.1,Setosa\n\
5.0,3.7,1.1,0.2,Setosa\n\
5.1,3.8,1.2,0.3,Setosa\n\
5.2,3.9,1.3,0.4,Setosa\n\
5.3,4.0,1.4,0.5,Setosa\n\
6.6,2.4,3.8,1.2,Versicolor\n\
6.7,2.5,3.9,1.3,Versicolor\n\
6.8,2.6,4.0,1.4,Versicolor\n\
6.9,2.7,4.1,1.5,Versicolor\n\
5.2,2.8,4.2,1.6,Versicolor\n\
5.3,2.9,4.3,1.7,Versicolor\n\
5.4,3.0,4.4,1.0,Versicolor\n\
5.5,3.1,4.5,1.1,Versicolor\n\
5.6,3.2,4.6,1.2,Versicolor\n\
5.7,3.3,4.7,1.3,Versicolor\n\
5.8,2.2,4.8,1.4,Versicolor\n\
5.9,2.3,4.9,1.5,Versicolor\n\
6.0,2.4,5.0,1.6,Versicolor\n\
6.1,2.5,3.0,1.7,Versicolor\n\
6.2,2.6,3.1,1.0,Versicolor\n\
6.3,2.7,3.2,1.1,Versicolor\n\
6.4,2.8,3.3,1.2,Versicolor\n\
6.5,2.9,3.4,1.3,Versicolor\n\
6.6,3.0,3.5,1.4,Versicolor\n\
6.7,3.1,3.6,1.5,Versicolor\n\
6.8,3.2,3.7,1.6,Versicolor\n\
6.9,3.3,3.8,1.7,Versicolor\n\
5.2,2.2,3.9,1.0,Versicolor\n\
5.3,2.3,4.0,1.1,Versicolor\n\
5.4,2.4,4.1,1.2,Versicolor\n\
5.5,2.5,4.2,1.3,Versicolor\n\
5.6,2.6,4.3,1.4,Versicolor\n\
5.7,2.7,4.4,1.5,Versicolor\n\
5.8,2.8,4.5,1.6,Versicolor\n\
5.9,2.9,4.6,1.7,Versicolor\n\
6.0,3.0,4.7,1.0,Versicolor\n\
6.1,3.1,4.8,1.1,Versicolor\n\
6.2,3.2,4.9,1.2,Versicolor\n\
6.3,3.3,5.0,1.3,Versicolor\n\
6.4,2.2,3.0,1.4,Versicolor\n\
6.5,2.3,3.1,1.5,Versicolor\n\
6.6,2.4,3.2,1.6,Versicolor\n\
6.7,2.5,3.3,1.7,Versicolor\n\
6.8,2.6,3.4,1.0,Versicolor\n\
6.9,2.7,3.5,1.1,Versicolor\n\
5.2,2.8,3.6,1.2,Versicolor\n\
5.3,2.9,3.7,1.3,Versicolor\n\
5.4,3.0,3.8,1.4,Versicolor\n\
5.5,3.1,3.9,1.5,Versicolor\n\
5.6,3.2,4.0,1.6,Versicolor\n\
5.7,3.3,4.1,1.7,Versicolor\n\
5.8,2.2,4.2,1.0,Versicolor\n\
5.9,2.3,4.3,1.1,Versicolor\n\
6.0,2.4,4.4,1.2,Versicolor\n\
6.1,2.5,4.5,1.3,Versicolor\n\
7.0,3.4,4.9,1.5,Virginica\n\
7.1,3.5,5.0,1.6,Virginica\n\
7.2,3.6,5.1,1.7,Virginica\n\
7.3,3.7,5.2,1.8,Virginica\n\
7.4,2.5,5.3,1.9,Virginica\n\
7.5,2.6,5.4,2.0,Virginica\n\
7.6,2.7,5.5,2.1,Virginica\n\
7.7,2.8,5.6,2.2,Virginica\n\
7.8,2.9,5.7,2.3,Virginica\n\
7.9,3.0,5.8,2.4,Virginica\n\
5.8,3.1,5.9,1.4,Virginica\n\
5.9,3.2,6.0,1.5,Virginica\n\
6.0,3.3,6.1,1.6,Virginica\n\
6.1,3.4,6.2,1.7,Virginica\n\
6.2,3.5,6.3,1.8,Virginica\n\
6.3,3.6,6.4,1.9,Virginica\n\
6.4,3.7,6.5,2.0,Virginica\n\
6.5,2.5,6.6,2.1,Virginica\n\
6.6,2.6,6.7,2.2,Virginica\n\
6.7,2.7,6.8,2.3,Virginica\n\
6.8,2.8,4.5,2.4,Virginica\n\
6.9,2.9,4.6,1.4,Virginica\n\
7.0,3.0,4.7,1.5,Virginica\n\
7.1,3.1,4.8,1.6,Virginica\n\
7.2,3.2,4.9,1.7,Virginica\n\
7.3,3.3,5.0,1.8,Virginica\n\
7.4,3.4,5.1,1.9,Virginica\n\
7.5,3.5,5.2,2.0,Virginica\n\
7.6,3.6,5.3,2.1,Virginica\n\
7.7,3.7,5.4,2.2,Virginica\n\
7.8,2.5,5.5,2.3,Virginica\n\
7.9,2.6,5.6,2.4,Virginica\n\
5.8,2.7,5.7,1.4,Virginica\n\
5.9,2.8,5.8,1.5,Virginica\n\
6.0,2.9,5.9,1.6,Virginica\n\
6.1,3.0,6.0,1.7,Virginica\n\
6.2,3.1,6.1,1.8,Virginica\n\
6.3,3.2,6.2,1.9,Virginica\n\
6.4,3.3,6.3,2.0,Virginica\n\
6.5,3.4,6.4,2.1,Virginica\n\
6.6,3.5,6.5,2.2,Virginica\n\
6.7,3.6,6.6,2.3,Virginica\n\
6.8,3.7,6.7,2.4,Virginica\n\
6.9,2.5,6.8,1.4,Virginica\n\
7.0,2.6,4.5,1.5,Virginica\n\
7.1,2.7,4.6,1.6,Virginica\n\
7.2,2.8,4.7,1.7,Virginica\n\
7.3,2.9,4.8,1.8,Virginica\n\
7.4,3.0,4.9,1.9,Virginica\n\
7.5,3.1,5.0,2.0,Virginica\n\
";

/// The documentation bundled for this dataset.
pub const IRIS_DOC: &'static str = "\
Iris flower dataset.\n\
\n\
150 observations of iris flowers, 50 from each of three varieties: Setosa,\n\
Versicolor and Virginica. Each observation records four measurements, in\n\
centimetres: the length and the width of the sepal, and the length and the\n\
width of the petal. The measurements are grouped by variety.\n\
\n\
The dataset is a small, classic benchmark for classification methods: the\n\
varieties are well separated in the four measurements, and the table is\n\
small enough to inspect by eye.\n\
\n\
Columns: sepal_length, sepal_width, petal_length, petal_width (all\n\
floating point), and variety (text).\n\
";

/// The declared column layout: four float measurements, then the variety.
pub open spec fn schema_spec() -> Seq<FieldV> {
    seq![
        (FieldV { name: "sepal_length"@, data_type: ColumnType::Float64, nullable: false }),
        (FieldV { name: "sepal_width"@, data_type: ColumnType::Float64, nullable: false }),
        (FieldV { name: "petal_length"@, data_type: ColumnType::Float64, nullable: false }),
        (FieldV { name: "petal_width"@, data_type: ColumnType::Float64, nullable: false }),
        (FieldV { name: "variety"@, data_type: ColumnType::Utf8, nullable: false }),
    ]
}

/// The dataset's fixed schema, declared explicitly and never inferred.
pub fn schema() -> (r: Schema)
    ensures
        r@ == schema_spec(),
{
    let mut fields: Vec<Field> = Vec::new();
    fields.push(Field::new("sepal_length".to_owned(), ColumnType::Float64, false));
    fields.push(Field::new("sepal_width".to_owned(), ColumnType::Float64, false));
    fields.push(Field::new("petal_length".to_owned(), ColumnType::Float64, false));
    fields.push(Field::new("petal_width".to_owned(), ColumnType::Float64, false));
    fields.push(Field::new("variety".to_owned(), ColumnType::Utf8, false));
    let schema = Schema::new(fields);
    proof {
        assert(schema@ =~= schema_spec());
    }
    schema
}

/// The declared column names are pairwise distinct.
pub proof fn lemma_schema_distinct()
    ensures
        distinct_names(schema_spec()),
{
    broadcast use vstd::string::group_string_axioms;

    reveal_strlit("sepal_length");
    reveal_strlit("sepal_width");
    reveal_strlit("petal_length");
    reveal_strlit("petal_width");
    reveal_strlit("variety");
    assert("sepal_length"@.len() == 12);
    assert("sepal_width"@.len() == 11);
    assert("petal_length"@.len() == 12);
    assert("petal_width"@.len() == 11);
    assert("variety"@.len() == 7);
    assert("sepal_length"@[0] == 's');
    assert("petal_length"@[0] == 'p');
    assert("sepal_width"@[0] == 's');
    assert("petal_width"@[0] == 'p');
    let s = schema_spec();
    assert forall|i: int, j: int| 0 <= i < j < s.len() implies s[i].name != s[j].name by {
        assert(s[0].name != s[1].name);
        assert(s[0].name != s[2].name);
        assert(s[0].name != s[3].name);
        assert(s[0].name != s[4].name);
        assert(s[1].name != s[2].name);
        assert(s[1].name != s[3].name);
        assert(s[1].name != s[4].name);
        assert(s[2].name != s[3].name);
        assert(s[2].name != s[4].name);
        assert(s[3].name != s[4].name);
    }
}

/// What loading this dataset yields.
pub open spec fn load_result() -> Result<TableV, LoadErrorV> {
    load_spec("iris"@, schema_spec(), true, encode_utf8(IRIS_DATA@), encode_utf8(IRIS_DOC@))
}

/// Loads the iris table from the bundled bytes.
pub fn load_table() -> (r: Result<DataTable, LoadError>)
    ensures
        table_result_view(r) == load_result(),
{
    let schema = schema();
    let data: Vec<u8> = IRIS_DATA.as_bytes_vec();
    let doc: Vec<u8> = IRIS_DOC.as_bytes_vec();
    load_from_parts("iris", schema, true, &data, &doc)
}

} // verus!
