//! A constrained SQL front end over tabular data named by URL or file path.
//!
//! A parsed `SELECT` statement is translated into a logical description of the
//! query, its source is located, the fetched text is loaded into a table, and
//! the description is run against that table: filter, sort, slice or group and
//! aggregate, then project.

pub mod ast;
pub mod convert;
pub mod dataset;
pub mod dialect;
pub mod engine;
pub mod error;
pub mod expr;
pub mod fetcher;
pub mod loader;
pub mod parser;
pub mod plan;
pub mod query;
pub mod shape;
pub mod text;

pub use crate::dataset::serialized;
pub use crate::dialect::example_sql;
pub use crate::dialect::TyrDialect;
pub use crate::dataset::ColumnType;
pub use crate::dataset::DataSet;
pub use crate::error::CustomError;
pub use crate::query::answer;
pub use crate::query::query;
pub use crate::query::show_columns;
