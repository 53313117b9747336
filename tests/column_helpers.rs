use polars_tools::{
    ColumnType, Dataset, DatasetColumn, FieldDescriptor, LogicalType, PolarsColumns,
    PolarsColumnsExt, Schema,
};

fn schema(fields: &[(&str, &str)]) -> Schema {
    let fields = fields.iter().map(|(n, t)| FieldDescriptor::from_text(n, t)).collect();
    Schema::from_fields(fields).unwrap()
}

fn frame(columns: &[(&str, LogicalType)], height: usize) -> Dataset {
    let columns = columns
        .iter()
        .map(|(n, t)| DatasetColumn { name: n.to_string(), dtype: ColumnType::Logical(t.clone()) })
        .collect();
    Dataset::new(columns, height).unwrap()
}

/// The columns `names` of `df`, in that order, as the tabular engine's
/// projection gives them.
fn project(df: &Dataset, names: &[&str]) -> Dataset {
    let columns = names
        .iter()
        .map(|n| DatasetColumn { name: n.to_string(), dtype: df.column_type(n).unwrap().clone() })
        .collect();
    Dataset::new(columns, df.height()).unwrap()
}

fn test_schema() -> Schema {
    schema(&[
        ("user_id", "i64"),
        ("username", "String"),
        ("email", "String"),
        ("age", "i32"),
        ("is_active", "bool"),
    ])
}

fn user_frame(height: usize) -> Dataset {
    frame(
        &[
            ("user_id", LogicalType::Int64),
            ("username", LogicalType::Text),
            ("email", LogicalType::Text),
            ("age", LogicalType::Int32),
            ("is_active", LogicalType::Boolean),
        ],
        height,
    )
}

#[test]
fn test_column_constants() {
    let s = test_schema();
    assert_eq!(s.column_name("user_id"), Some("user_id"));
    assert_eq!(s.column_name("username"), Some("username"));
    assert_eq!(s.column_name("email"), Some("email"));
    assert_eq!(s.column_name("age"), Some("age"));
    assert_eq!(s.column_name("is_active"), Some("is_active"));
}

#[test]
fn test_column_names_function() {
    let expected = vec!["user_id", "username", "email", "age", "is_active"];
    assert_eq!(test_schema().column_names(), expected);
}

#[test]
fn test_column_name_at() {
    let s = test_schema();
    assert_eq!(s.column_name_at(0), Some("user_id"));
    assert_eq!(s.column_name_at(1), Some("username"));
    assert_eq!(s.column_name_at(2), Some("email"));
    assert_eq!(s.column_name_at(3), Some("age"));
    assert_eq!(s.column_name_at(4), Some("is_active"));
    assert_eq!(s.column_name_at(5), None);
}

#[test]
fn test_col_expr() {
    let s = test_schema();
    let user_id_expr = s.col_expr("user_id");
    assert!(user_id_expr.is_some());
    assert_eq!(user_id_expr.unwrap().name(), "user_id");
    assert!(s.col_expr("username").is_some());
    assert!(s.col_expr("nonexistent").is_none());
}

#[test]
fn test_columns_trait() {
    let expected = vec!["user_id", "username", "email", "age", "is_active"];
    assert_eq!(test_schema().columns(), expected);
}

#[test]
fn test_expression_helpers() {
    let s = test_schema();
    let _user_id_expr = s.col_expr("user_id").unwrap();
    let _username_expr = s.col_expr("username").unwrap();
    let _email_expr = s.col_expr("email").unwrap();
    let _age_expr = s.col_expr("age").unwrap();
    let _is_active_expr = s.col_expr("is_active").unwrap();
}

#[test]
fn test_single_field_schema() {
    let s = schema(&[("value", "String")]);
    assert_eq!(s.column_name("value"), Some("value"));
    assert_eq!(s.column_names(), vec!["value"]);
    assert_eq!(s.column_name_at(0), Some("value"));
    assert_eq!(s.column_name_at(1), None);
}

#[test]
fn test_column_helpers_with_dataframe() {
    let df = user_frame(3);
    let s = test_schema();
    let names = vec![
        s.column_name("user_id").unwrap(),
        s.column_name("username").unwrap(),
        s.column_name("email").unwrap(),
    ];
    let selected = project(&df, &names);
    assert_eq!(selected.width(), 3);
    assert_eq!(selected.height(), 3);
}

#[test]
fn test_expr_all_cols() {
    let s = test_schema();
    let df = user_frame(3);
    let names: Vec<String> = s.all_cols().iter().map(|e| e.name().to_string()).collect();
    let names: Vec<&str> = names.iter().map(|n| n.as_str()).collect();
    let result = project(&df, &names);
    assert_eq!(result.width(), 5);
    let column_names = result.column_names();
    let expected = ["user_id", "username", "email", "age", "is_active"];
    for expected_col in expected {
        assert!(column_names.iter().any(|&col| col == expected_col));
    }
    let with_all_columns = project(&df, &s.all_columns());
    assert_eq!(with_all_columns.width(), result.width());
    assert_eq!(with_all_columns.height(), result.height());
    assert_eq!(with_all_columns.column_names(), result.column_names());
}
