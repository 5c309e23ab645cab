use example_data::{ColumnType, Column, DataTable, LoadError, Repo};

#[test]
fn test_can_load_iris() {
    let repo = Repo::default();
    let table: DataTable = repo.load_table("iris").unwrap();

    assert_eq!(
        table.num_rows(),
        150,
        "Iris is supposed to have 64 observations"
    );
    assert_eq!(
        table.num_columns(),
        5,
        "Iris is supposed to have 5 features"
    );

    // Checking field-names
    assert_eq!(table.schema().field(0).name(), "sepal_length");
    assert_eq!(table.schema().field(1).name(), "sepal_width");
    assert_eq!(table.schema().field(2).name(), "petal_length");
    assert_eq!(table.schema().field(3).name(), "petal_width");
    assert_eq!(table.schema().field(4).name(), "variety");

    // Checking field-names
    assert_eq!(table.schema().field(0).data_type(), &ColumnType::Float64);
    assert_eq!(table.schema().field(1).data_type(), &ColumnType::Float64);
    assert_eq!(table.schema().field(2).data_type(), &ColumnType::Float64);
    assert_eq!(table.schema().field(3).data_type(), &ColumnType::Float64);
    assert_eq!(table.schema().field(4).data_type(), &ColumnType::Utf8);
}

#[test]
fn test_can_load_boston_housing() {
    let repo = Repo::default();
    let table: DataTable = repo.load_table("boston").unwrap();

    assert_eq!(table.num_rows(), 506);
    assert_eq!(table.num_columns(), 14);
}

#[test]
fn known_datasets_load_with_declared_shape() {
    let repo = Repo::default();
    for name in ["iris", "boston"] {
        let table = repo.load_table(name).unwrap();
        assert_eq!(table.name(), name);
        assert_eq!(table.num_columns(), table.schema().num_fields());
        assert!(table.num_rows() > 0);
    }
}

#[test]
fn boston_types_follow_the_declared_schema() {
    let table = Repo::default().load_table("boston").unwrap();
    let schema = table.schema();
    assert_eq!(schema.field(3).name(), "CHAS");
    for j in 0..table.num_columns() {
        let expected = if j == 3 { ColumnType::Int64 } else { ColumnType::Float64 };
        assert_eq!(schema.field(j).data_type(), &expected);
    }
    let batches = table.data();
    assert_eq!(batches.len(), 1);
    match batches[0].column(3) {
        Column::Int64(values) => {
            assert_eq!(values.len(), 506);
            assert!(values.iter().all(|v| *v == 0 || *v == 1));
        },
        _ => panic!("CHAS must be an integer column"),
    }
    match batches[0].column(0) {
        Column::Float64(values) => {
            assert_eq!(values.len(), 506);
            assert_eq!(values[0].parse::<f64>().unwrap(), 0.006);
        },
        _ => panic!("CRIM must be a float column"),
    }
}

#[test]
fn unknown_names_are_not_found() {
    let repo = Repo::default();
    match repo.load_table("definitely-not-a-dataset") {
        Err(LoadError::NotFound(name)) => assert_eq!(name, "definitely-not-a-dataset"),
        _ => panic!("an unknown name must fail with NotFound"),
    }
    match repo.load_table("") {
        Err(LoadError::NotFound(name)) => assert_eq!(name, ""),
        _ => panic!("an unknown name must fail with NotFound"),
    }
    match repo.load_table("IRIS") {
        Err(LoadError::NotFound(name)) => assert_eq!(name, "IRIS"),
        _ => panic!("lookup is case sensitive"),
    }
}

#[test]
fn repeated_loads_agree() {
    let repo = Repo::default();
    for name in ["iris", "boston"] {
        let first = repo.load_table(name).unwrap();
        let second = repo.load_table(name).unwrap();
        assert_eq!(first.num_rows(), second.num_rows());
        assert_eq!(first.num_columns(), second.num_columns());
        assert_eq!(first.doc(), second.doc());
        for j in 0..first.num_columns() {
            assert_eq!(first.schema().field(j).name(), second.schema().field(j).name());
            assert_eq!(first.schema().field(j).data_type(), second.schema().field(j).data_type());
        }
    }
}

#[test]
fn shipped_documentation_is_present_and_non_empty() {
    let repo = Repo::default();
    for name in ["iris", "boston"] {
        let table = repo.load_table(name).unwrap();
        let doc = table.doc().expect("every bundled dataset ships documentation");
        assert!(!doc.is_empty());
    }
    let iris = repo.load_table("iris").unwrap();
    assert!(iris.doc().unwrap().contains("Iris"));
}

#[test]
fn iris_values_parse_as_declared() {
    let table = Repo::default().load_table("iris").unwrap();
    let batches = table.data();
    assert_eq!(batches.len(), 1);
    let batch = &batches[0];
    assert_eq!(batch.num_rows(), 150);
    match batch.column(0) {
        Column::Float64(values) => {
            assert_eq!(values.len(), 150);
            // The stored text of a float cell casts losslessly to machine
            // floating point; the first cell is the literal 4.6.
            assert_eq!(values[0].parse::<f64>().unwrap(), 4.6);
        },
        _ => panic!("sepal_length must be a float column"),
    }
    match batch.column(4) {
        Column::Utf8(values) => {
            assert_eq!(values[0], "Setosa");
            assert_eq!(values[149], "Virginica");
        },
        _ => panic!("variety must be a text column"),
    }
}

#[test]
fn data_sets_are_not_bundled_yet() {
    let repo = Repo::default();
    match repo.load_data_set("iris") {
        Err(LoadError::NotFound(name)) => assert_eq!(name, "iris"),
        _ => panic!("no data set is bundled"),
    }
}
