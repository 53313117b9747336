//! Schema helpers for tabular data: field type resolution, schema accessors
//! and dataset validation.

pub mod dataset;
pub mod descriptor;
pub mod enum_label;
pub mod schema;
pub mod text;
pub mod type_text;
pub mod validate;

pub use dataset::{ColumnType, Dataset, DatasetColumn};
pub use descriptor::{resolve, LogicalType, PrimitiveKind, TypeDescriptor};
pub use schema::{ColumnExpr, FieldDescriptor, PolarsColumns, PolarsColumnsExt, Schema};
pub use type_text::{is_likely_enum_type, parse_type_descriptor};
pub use validate::ValidationError;
pub use enum_label::ValidatableEnum;
