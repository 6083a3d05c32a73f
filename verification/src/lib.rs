//! Configuration of the meta service and the text, JSON and ClickHouse
//! serialisation of boolean columns, with their conversions verified.

pub mod error;
pub mod inner;
pub mod config;
pub mod datavalues;
pub mod boolean;
