pub mod value;
pub mod type_def;
pub mod error;
pub mod join;
pub mod decimal;
pub mod common_log;
pub mod expression;
pub mod function;
pub mod laws;
pub mod metrics;
