use vstd::prelude::*;

verus! {

/// Errors of the meta service that the configuration layer can report.
#[derive(Debug, Clone, PartialEq, Eq)]
pub enum MetaError {
    /// The configuration is rejected; the text says why.
    InvalidConfig(String),
}

/// Errors of the data value layer.
#[derive(Debug, Clone, PartialEq, Eq)]
pub enum ErrorCode {
    /// A value is not of the kind that a serializer handles.
    BadBytes(String),
    /// A column is not of the kind that a serializer handles.
    UnknownColumn(String),
}

} // verus!
