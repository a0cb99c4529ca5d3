use vstd::prelude::*;
use crate::types::MetricDataType;

verus! {

/// Why a value could not be encoded for a type tag.
#[derive(Clone, Debug, PartialEq, Eq)]
pub enum EncodeError {
    /// The value's kind is not the one the tag asks for.
    TypeMismatch { tag: MetricDataType },
    /// The text is not a literal of the tag's grammar, or is out of its range.
    ParseFailure { tag: MetricDataType, text: String },
    /// The tag cannot be filled by this operation.
    UnsupportedTag { tag: MetricDataType },
}

/// Errors of the single-item builders.
#[derive(Clone, Debug, PartialEq, Eq)]
pub enum SparkplugError {
    /// A dataset's column names and column types differ in length.
    ShapeError { columns: usize, types: usize },
    /// The value of the named metric could not be encoded.
    MetricBuildError { name: Option<String>, cause: EncodeError },
}

} // verus!
