use example_data::load::load_from_parts;
use example_data::{
    Batch, Column, ColumnType, DataSet, DataTableBuilder, Field, LoadError, RequiredField,
    RowFault, Schema,
};

fn small_schema() -> Schema {
    Schema::new(vec![
        Field::new("id".to_string(), ColumnType::Int64, false),
        Field::new("score".to_string(), ColumnType::Float64, false),
        Field::new("label".to_string(), ColumnType::Utf8, false),
    ])
}

fn small_batch() -> Batch {
    Batch::new(
        small_schema(),
        vec![
            Column::Int64(vec![1, 2]),
            Column::Float64(vec!["0.5".to_string(), "1.5".to_string()]),
            Column::Utf8(vec!["a".to_string(), "b".to_string()]),
        ],
    )
}

#[test]
fn builder_rejects_missing_or_empty_required_fields() {
    match DataTableBuilder::new().build() {
        Err(LoadError::Validation(RequiredField::Batches)) => {},
        _ => panic!("a build without batches must fail on the batches"),
    }
    match DataTableBuilder::new().with_name("t".to_string()).with_batches(vec![]).build() {
        Err(LoadError::Validation(RequiredField::Batches)) => {},
        _ => panic!("an empty batch sequence must fail on the batches"),
    }
    match DataTableBuilder::new().with_batches(vec![small_batch()]).build() {
        Err(LoadError::Validation(RequiredField::Name)) => {},
        _ => panic!("a build without a name must fail on the name"),
    }
    match DataTableBuilder::new()
        .with_name(String::new())
        .with_batches(vec![small_batch()])
        .build()
    {
        Err(LoadError::Validation(RequiredField::Name)) => {},
        _ => panic!("an empty name must fail on the name"),
    }
}

#[test]
fn builder_accepts_a_name_and_batches_with_or_without_doc() {
    let with_doc = DataTableBuilder::new()
        .with_name("t".to_string())
        .with_batches(vec![small_batch()])
        .with_doc("about t".to_string())
        .build()
        .unwrap();
    assert_eq!(with_doc.name(), "t");
    assert_eq!(with_doc.doc(), Some("about t"));
    assert_eq!(with_doc.num_rows(), 2);
    assert_eq!(with_doc.num_columns(), 3);

    let without_doc = DataTableBuilder::new()
        .with_name("t".to_string())
        .with_batches(vec![small_batch()])
        .build()
        .unwrap();
    assert_eq!(without_doc.doc(), None);
}

#[test]
fn loading_from_parts_parses_typed_cells() {
    let data: Vec<u8> = b"id,score,label\n42,2.5,hot\n-7,1e3,cold\n".to_vec();
    let doc: Vec<u8> = b"three columns".to_vec();
    let table = load_from_parts("demo", small_schema(), true, &data, &doc).unwrap();
    assert_eq!(table.num_rows(), 2);
    assert_eq!(table.num_columns(), 3);
    assert_eq!(table.doc(), Some("three columns"));
    let batches = table.data();
    match batches[0].column(0) {
        Column::Int64(values) => assert_eq!(values, &vec![42, -7]),
        _ => panic!("id must be an integer column"),
    }
    match batches[0].column(1) {
        Column::Float64(values) => {
            assert_eq!(values[0].parse::<f64>().unwrap(), 2.5);
            assert_eq!(values[1].parse::<f64>().unwrap(), 1000.0);
        },
        _ => panic!("score must be a float column"),
    }
    match batches[0].column(2) {
        Column::Utf8(values) => assert_eq!(values, &vec!["hot".to_string(), "cold".to_string()]),
        _ => panic!("label must be a text column"),
    }
}

#[test]
fn integer_cells_respect_the_64_bit_range() {
    let schema = Schema::new(vec![Field::new("n".to_string(), ColumnType::Int64, false)]);
    let data: Vec<u8> = b"9223372036854775807\n-9223372036854775808\n".to_vec();
    let doc: Vec<u8> = b"extremes".to_vec();
    let table = load_from_parts("extremes", schema, false, &data, &doc).unwrap();
    match table.data()[0].column(0) {
        Column::Int64(values) => assert_eq!(values, &vec![i64::MAX, i64::MIN]),
        _ => panic!("n must be an integer column"),
    }

    let schema = Schema::new(vec![Field::new("n".to_string(), ColumnType::Int64, false)]);
    let overflowing: Vec<u8> = b"9223372036854775808\n".to_vec();
    match load_from_parts("extremes", schema, false, &overflowing, &doc) {
        Err(LoadError::Parse { row: 0, fault: RowFault::Cell { column: 0 } }) => {},
        _ => panic!("a value outside the 64-bit range must fail its cell"),
    }
}

#[test]
fn malformed_rows_report_the_first_offence() {
    let data: Vec<u8> = b"id,score,label\n1,0.5,a\n2,oops,b\n3,1.5,c\n".to_vec();
    let doc: Vec<u8> = b"d".to_vec();
    match load_from_parts("demo", small_schema(), true, &data, &doc) {
        Err(LoadError::Parse { row: 1, fault: RowFault::Cell { column: 1 } }) => {},
        other => panic!("expected the fault at row 1, column 1, got {:?}", other),
    }

    let short: Vec<u8> = b"id,score,label\n1,0.5\n".to_vec();
    match load_from_parts("demo", small_schema(), true, &short, &doc) {
        Err(LoadError::Parse { row: 0, fault: RowFault::Width { found: 2 } }) => {},
        other => panic!("expected a width fault with 2 fields, got {:?}", other),
    }
}

#[test]
fn float_cells_follow_the_literal_grammar() {
    let doc: Vec<u8> = b"d".to_vec();
    for good in ["2.5", "-0.125", "+3", "4", "1e9", "6.02e+23", "1.5E-3"] {
        let schema = Schema::new(vec![Field::new("x".to_string(), ColumnType::Float64, false)]);
        let mut data: Vec<u8> = good.as_bytes().to_vec();
        data.push(b'\n');
        let table = load_from_parts("floats", schema, false, &data, &doc).unwrap();
        match table.data()[0].column(0) {
            Column::Float64(values) => assert_eq!(values[0], good),
            _ => panic!("x must be a float column"),
        }
    }
    for bad in ["", "abc", "1.", ".5", "2.5.1", "1e", "--3", "4,5"] {
        let schema = Schema::new(vec![Field::new("x".to_string(), ColumnType::Float64, false)]);
        let mut data: Vec<u8> = bad.as_bytes().to_vec();
        data.push(b'\n');
        assert!(
            load_from_parts("floats", schema, false, &data, &doc).is_err(),
            "{:?} must be rejected",
            bad
        );
    }
}

#[test]
fn documentation_bytes_must_be_text() {
    let data: Vec<u8> = b"1\n".to_vec();
    let schema = Schema::new(vec![Field::new("n".to_string(), ColumnType::Int64, false)]);
    let bad_doc: Vec<u8> = vec![0xff, 0xfe, 0x41];
    match load_from_parts("demo", schema, false, &data, &bad_doc) {
        Err(LoadError::Internal) => {},
        _ => panic!("documentation that is not text is an internal fault"),
    }
}

#[test]
fn text_cells_decode_multi_byte_characters() {
    let schema = Schema::new(vec![Field::new("word".to_string(), ColumnType::Utf8, false)]);
    let data: Vec<u8> = "caf\u{e9}\n".as_bytes().to_vec();
    assert_eq!(data.len(), 6, "the accented letter takes two bytes");
    let doc: Vec<u8> = b"d".to_vec();
    let table = load_from_parts("words", schema, false, &data, &doc).unwrap();
    match table.data()[0].column(0) {
        Column::Utf8(values) => {
            assert_eq!(values[0], "caf\u{e9}");
            assert_eq!(values[0].chars().count(), 4);
        },
        _ => panic!("word must be a text column"),
    }

    let schema = Schema::new(vec![Field::new("word".to_string(), ColumnType::Utf8, false)]);
    let broken: Vec<u8> = vec![0xc3, 0x28, 0x0a];
    match load_from_parts("words", schema, false, &broken, &doc) {
        Err(LoadError::Parse { row: 0, fault: RowFault::Cell { column: 0 } }) => {},
        _ => panic!("bytes that are not text must fail their cell"),
    }
}

#[test]
fn data_sets_group_tables() {
    let table = DataTableBuilder::new()
        .with_name("t".to_string())
        .with_batches(vec![small_batch()])
        .build()
        .unwrap();
    let set = DataSet::new("pair".to_string(), vec![table], None);
    assert_eq!(set.name(), "pair");
    assert_eq!(set.doc(), None);
    assert_eq!(set.tables().len(), 1);
    assert_eq!(set.tables()[0].name(), "t");
}
