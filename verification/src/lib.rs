//! A small analytical query engine over columnar record batches.
//!
//! A data frame composes a logical plan; the optimizer narrows every scan to
//! the columns that the plan refers to; the query planner lowers the logical
//! plan to physical operators; the operators evaluate column-wise expressions
//! over record batches.

pub mod datasource;
pub mod datatypes;
pub mod error;
pub mod execution;
pub mod logical_plan;
pub mod optimizer;
pub mod physical_plan;
pub mod query_planner;
pub mod sql_planner;
pub mod text;
