use polars_tools::{
    ColumnType, Dataset, DatasetColumn, FieldDescriptor, LogicalType, Schema,
};

fn schema(fields: &[(&str, &str)]) -> Schema {
    let fields = fields.iter().map(|(n, t)| FieldDescriptor::from_text(n, t)).collect();
    Schema::from_fields(fields).unwrap()
}

fn frame(columns: &[(&str, LogicalType)], height: usize) -> Dataset {
    let columns = columns
        .iter()
        .map(|(n, t)| DatasetColumn { name: n.to_string(), dtype: ColumnType::Logical(t.clone()) })
        .collect();
    Dataset::new(columns, height).unwrap()
}

/// The columns `names` of `df`, in that order, as the tabular engine's
/// projection gives them.
fn project(df: &Dataset, names: &[&str]) -> Dataset {
    let columns = names
        .iter()
        .map(|n| DatasetColumn { name: n.to_string(), dtype: df.column_type(n).unwrap().clone() })
        .collect();
    Dataset::new(columns, df.height()).unwrap()
}

fn test_schema() -> Schema {
    schema(&[
        ("user_id", "i64"),
        ("username", "String"),
        ("email", "String"),
        ("age", "i32"),
        ("is_active", "bool"),
    ])
}

fn column_only_schema() -> Schema {
    schema(&[("product_id", "i32"), ("product_name", "String"), ("price", "f64")])
}

#[test]
fn test_all_columns_with_polars_schema() {
    let df = frame(
        &[
            ("user_id", LogicalType::Int64),
            ("username", LogicalType::Text),
            ("email", LogicalType::Text),
            ("age", LogicalType::Int32),
            ("is_active", LogicalType::Boolean),
            ("extra_column", LogicalType::Text),
        ],
        3,
    );
    let s = test_schema();
    let all_columns = s.all_columns();
    assert_eq!(all_columns.len(), 5);
    assert!(all_columns.contains(&"user_id"));
    assert!(all_columns.contains(&"username"));
    assert!(all_columns.contains(&"email"));
    assert!(all_columns.contains(&"age"));
    assert!(all_columns.contains(&"is_active"));
    let selected_df = project(&df, &s.all_columns());
    assert_eq!(selected_df.width(), 5);
    assert_eq!(selected_df.height(), 3);
    let column_names = selected_df.column_names();
    assert_eq!(column_names.len(), 5);
    assert!(column_names.iter().any(|&s| s == "user_id"));
    assert!(column_names.iter().any(|&s| s == "username"));
    assert!(column_names.iter().any(|&s| s == "email"));
    assert!(column_names.iter().any(|&s| s == "age"));
    assert!(column_names.iter().any(|&s| s == "is_active"));
    assert!(!column_names.iter().any(|&s| s == "extra_column"));
}

#[test]
fn test_all_columns_with_polars_columns_only() {
    let df = frame(
        &[
            ("product_id", LogicalType::Int32),
            ("product_name", LogicalType::Text),
            ("price", LogicalType::Float64),
            ("category", LogicalType::Text),
        ],
        3,
    );
    let s = column_only_schema();
    let all_columns = s.all_columns();
    assert_eq!(all_columns.len(), 3);
    assert!(all_columns.contains(&"product_id"));
    assert!(all_columns.contains(&"product_name"));
    assert!(all_columns.contains(&"price"));
    let selected_df = project(&df, &s.all_columns());
    assert_eq!(selected_df.width(), 3);
    assert_eq!(selected_df.height(), 3);
    let column_names = selected_df.column_names();
    assert_eq!(column_names.len(), 3);
    assert!(column_names.iter().any(|&s| s == "product_id"));
    assert!(column_names.iter().any(|&s| s == "product_name"));
    assert!(column_names.iter().any(|&s| s == "price"));
    assert!(!column_names.iter().any(|&s| s == "category"));
}

#[test]
fn test_all_columns_in_lazy_operations() {
    let df = frame(
        &[
            ("user_id", LogicalType::Int64),
            ("username", LogicalType::Text),
            ("email", LogicalType::Text),
            ("age", LogicalType::Int32),
            ("is_active", LogicalType::Boolean),
            ("extra_field", LogicalType::Text),
        ],
        4,
    );
    let s = test_schema();
    let names: Vec<String> = s.all_cols().iter().map(|e| e.name().to_string()).collect();
    let names: Vec<&str> = names.iter().map(|n| n.as_str()).collect();
    let result = project(&df, &names);
    assert_eq!(result.width(), 5);
    let column_names = result.column_names();
    assert!(!column_names.iter().any(|&s| s == "extra_field"));
}

#[test]
fn test_all_columns_order_matches_struct_definition() {
    let expected_order = vec!["user_id", "username", "email", "age", "is_active"];
    assert_eq!(test_schema().all_columns(), expected_order);
    let expected_product_order = vec!["product_id", "product_name", "price"];
    assert_eq!(column_only_schema().all_columns(), expected_product_order);
}

#[test]
fn test_all_columns_with_single_field_struct() {
    let s = schema(&[("id", "i64")]);
    let all_columns = s.all_columns();
    assert_eq!(all_columns.len(), 1);
    assert_eq!(all_columns[0], "id");
    let df = frame(&[("id", LogicalType::Int64), ("extra", LogicalType::Text)], 2);
    let selected = project(&df, &s.all_columns());
    assert_eq!(selected.width(), 1);
    let column_names = selected.column_names();
    assert_eq!(column_names.len(), 1);
    assert!(column_names.iter().any(|&s| s == "id"));
}

#[test]
fn test_all_columns_real_world_example() {
    let s = schema(&[
        ("customer_id", "i64"),
        ("name", "String"),
        ("email", "String"),
        ("signup_date", "String"),
        ("total_orders", "i32"),
        ("lifetime_value", "f64"),
    ]);
    let raw_data = frame(
        &[
            ("customer_id", LogicalType::Int64),
            ("name", LogicalType::Text),
            ("email", LogicalType::Text),
            ("signup_date", LogicalType::Text),
            ("total_orders", LogicalType::Int32),
            ("lifetime_value", LogicalType::Float64),
            ("internal_id", LogicalType::Int32),
            ("last_login", LogicalType::Text),
            ("marketing_segment", LogicalType::Text),
        ],
        3,
    );
    let clean_data = project(&raw_data, &s.all_columns());
    assert_eq!(clean_data.width(), 6);
    s.validate(&clean_data).unwrap();
    s.validate_strict(&clean_data).unwrap();
}
