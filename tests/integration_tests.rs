use polars_tools::{
    ColumnType, Dataset, DatasetColumn, FieldDescriptor, LogicalType, PolarsColumns, Schema,
};

fn schema(fields: &[(&str, &str)]) -> Schema {
    let fields = fields.iter().map(|(n, t)| FieldDescriptor::from_text(n, t)).collect();
    Schema::from_fields(fields).unwrap()
}

fn frame(columns: &[(&str, LogicalType)], height: usize) -> Dataset {
    let columns = columns
        .iter()
        .map(|(n, t)| DatasetColumn { name: n.to_string(), dtype: ColumnType::Logical(t.clone()) })
        .collect();
    Dataset::new(columns, height).unwrap()
}

/// The columns `names` of `df`, in that order, as the tabular engine's
/// projection gives them.
fn project(df: &Dataset, names: &[&str]) -> Dataset {
    let columns = names
        .iter()
        .map(|n| DatasetColumn { name: n.to_string(), dtype: df.column_type(n).unwrap().clone() })
        .collect();
    Dataset::new(columns, df.height()).unwrap()
}

fn user_profile() -> Schema {
    schema(&[
        ("user_id", "i64"),
        ("username", "String"),
        ("email", "String"),
        ("age", "i32"),
        ("is_premium", "bool"),
        ("account_balance", "f64"),
    ])
}

fn product_sales() -> Schema {
    schema(&[
        ("product_id", "i32"),
        ("product_name", "String"),
        ("price", "f64"),
        ("quantity_sold", "i32"),
        ("is_discontinued", "bool"),
    ])
}

fn optional_user_data() -> Schema {
    schema(&[
        ("user_id", "i64"),
        ("username", "String"),
        ("middle_name", "Option < String >"),
        ("phone", "Option < String >"),
        ("birth_year", "Option < i32 >"),
    ])
}

fn user_columns() -> Vec<(&'static str, LogicalType)> {
    vec![
        ("user_id", LogicalType::Int64),
        ("username", LogicalType::Text),
        ("email", LogicalType::Text),
        ("age", LogicalType::Int32),
        ("is_premium", LogicalType::Boolean),
        ("account_balance", LogicalType::Float64),
    ]
}

fn product_frame(height: usize) -> Dataset {
    frame(
        &[
            ("product_id", LogicalType::Int32),
            ("product_name", LogicalType::Text),
            ("price", LogicalType::Float64),
            ("quantity_sold", LogicalType::Int32),
            ("is_discontinued", LogicalType::Boolean),
        ],
        height,
    )
}

#[test]
fn test_complete_user_workflow() {
    let df = frame(&user_columns(), 5);
    assert!(user_profile().validate(&df).is_ok());
    assert!(user_profile().validate_strict(&df).is_ok());
    let premium_users = project(&df, &vec!["username", "account_balance", "age"]);
    assert_eq!(premium_users.width(), 3);
}

#[test]
fn test_product_sales_analysis() {
    let df = product_frame(5);
    assert!(product_sales().validate(&df).is_ok());
}

#[test]
fn test_schema_evolution_compatibility() {
    let mut columns = user_columns();
    columns.push(("extra_field1", LogicalType::Text));
    columns.push(("extra_field2", LogicalType::Int32));
    let df_with_extra = frame(&columns, 2);
    assert!(user_profile().validate(&df_with_extra).is_ok());
    assert!(user_profile().validate_strict(&df_with_extra).is_err());
    let selected = project(&df_with_extra, &vec!["username", "email"]);
    assert_eq!(selected.width(), 2);
    assert_eq!(selected.height(), 2);
}

#[test]
fn test_optional_fields_workflow() {
    let s = optional_user_data();
    let column_names = s.column_names();
    assert_eq!(column_names.len(), 5);
    assert!(column_names.contains(&"user_id"));
    assert!(column_names.contains(&"username"));
    assert!(column_names.contains(&"middle_name"));
    assert!(column_names.contains(&"phone"));
    assert!(column_names.contains(&"birth_year"));
    assert_eq!(s.column_name("user_id"), Some("user_id"));
    assert_eq!(s.column_name("middle_name"), Some("middle_name"));
}

#[test]
fn test_large_dataset_performance() {
    let large_df = frame(&user_columns(), 10_000);
    assert!(user_profile().validate(&large_df).is_ok());
    assert!(user_profile().validate_strict(&large_df).is_ok());
}

#[test]
fn test_cross_schema_operations() {
    let users_df = frame(&user_columns(), 3);
    let products_df = product_frame(3);
    assert!(user_profile().validate(&users_df).is_ok());
    assert!(product_sales().validate(&products_df).is_ok());
    let user_summary = project(&users_df, &vec!["username", "is_premium"]);
    let product_summary = project(&products_df, &vec!["product_name", "price"]);
    assert_eq!(user_summary.width(), 2);
    assert_eq!(product_summary.width(), 2);
}

#[test]
fn test_real_world_data_pipeline() {
    let raw_df = frame(&user_columns(), 4);
    assert!(user_profile().validate(&raw_df).is_ok());
    let cleaned_df = project(&raw_df, &user_profile().all_columns());
    assert!(user_profile().validate(&cleaned_df).is_ok());
    assert!(user_profile().validate_strict(&cleaned_df).is_ok());
}
