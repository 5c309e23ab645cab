//! The per-dataset load pipeline: fixed schema, raw tabular bytes and raw
//! documentation bytes in, a validated table out.

use vstd::prelude::*;

use crate::column::Batch;
use crate::csv::{parse_batch, parse_result};
use crate::error::{LoadError, LoadErrorV};
use crate::schema::{FieldV, Schema};
use crate::table::{
    build_spec, table_result_view, BuilderV, DataTable, DataTableBuilder, TableV,
};
use crate::text::decode_text;
use vstd::utf8::{decode_utf8, encode_utf8, valid_utf8};

verus! {

/// What loading a dataset from its parts yields: the first parse fault, or
/// `Internal` when the documentation bytes are not text, or the built table
/// carrying the decoded documentation.
pub open spec fn load_spec(
    name: Seq<char>,
    schema: Seq<FieldV>,
    has_header: bool,
    data: Seq<u8>,
    doc: Seq<u8>,
) -> Result<TableV, LoadErrorV> {
    match parse_result(schema, has_header, data) {
        Err(e) => Err(e),
        Ok(batch) => {
            if !valid_utf8(doc) {
                Err(LoadErrorV::Internal)
            } else {
                build_spec(
                    BuilderV {
                        batches: Some(seq![batch]),
                        doc: Some(decode_utf8(doc)),
                        name: Some(name),
                    },
                )
            }
        },
    }
}

/// Loads one dataset from its parts: parses the raw bytes against the
/// schema, decodes the documentation bytes, and builds the table.
pub fn load_from_parts(
    name: &str,
    schema: Schema,
    has_header: bool,
    data: &Vec<u8>,
    doc: &Vec<u8>,
) -> (r: Result<DataTable, LoadError>)
    ensures
        table_result_view(r) == load_spec(name@, schema@, has_header, data@, doc@),
{
    let batch = match parse_batch(schema, has_header, data) {
        Ok(batch) => batch,
        Err(e) => {
            return Err(e);
        },
    };
    let text = match decode_text(doc) {
        Some(text) => text,
        None => {
            return Err(LoadError::Internal);
        },
    };
    let ghost batch_v = batch@;
    let mut batches: Vec<Batch> = Vec::new();
    batches.push(batch);
    proof {
        assert(batches.deep_view() =~= seq![batch_v]);
    }
    DataTableBuilder::new().with_name(name.to_owned()).with_batches(batches).with_doc(text).build()
}

/// A successfully loaded table is well formed, carries the requested name
/// and the declared schema with one column per field, counts exactly the
/// data rows of the raw bytes, and holds the decoded documentation — which
/// re-encodes to exactly the bundled bytes, so decoding loses nothing.
pub proof fn lemma_load_shape(
    name: Seq<char>,
    schema: Seq<FieldV>,
    has_header: bool,
    data: Seq<u8>,
    doc: Seq<u8>,
)
    requires
        load_spec(name, schema, has_header, data, doc) is Ok,
    ensures
        load_spec(name, schema, has_header, data, doc)->Ok_0.wf(),
        load_spec(name, schema, has_header, data, doc)->Ok_0.name == name,
        load_spec(name, schema, has_header, data, doc)->Ok_0.schema() == schema,
        load_spec(name, schema, has_header, data, doc)->Ok_0.num_columns() == schema.len(),
        schema.len() > 0 ==> load_spec(name, schema, has_header, data, doc)->Ok_0.num_rows()
            == crate::csv::data_rows(data, has_header).len(),
        load_spec(name, schema, has_header, data, doc)->Ok_0.doc == Some(decode_utf8(doc)),
        encode_utf8(decode_utf8(doc)) == doc,
{
    crate::csv::lemma_parse_shape(schema, has_header, data);
    let batch = parse_result(schema, has_header, data)->Ok_0;
    let table = load_spec(name, schema, has_header, data, doc)->Ok_0;
    assert(table.batches =~= seq![batch]);
    assert(seq![batch].drop_first() =~= Seq::<crate::column::BatchV>::empty());
    assert(crate::table::rows_total(Seq::<crate::column::BatchV>::empty()) == 0);
    assert(seq![batch].first() == batch);
    assert(table.num_rows() == batch.num_rows());
    vstd::utf8::decode_utf8_encode_utf8(doc);
}

} // verus!
