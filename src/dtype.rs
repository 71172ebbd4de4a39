use vstd::prelude::*;
use crate::error::ExplorerError;
use crate::text::same_text;

verus! {

/// Resolution of a timestamp column.
#[derive(Clone, Copy, Debug, PartialEq, Eq, Structural)]
pub enum TimeUnit {
    Milliseconds,
    Microseconds,
    Nanoseconds,
}

/// The column types that a user can declare.
#[derive(Clone, Copy, Debug, PartialEq, Eq, Structural)]
pub enum DType {
    Binary,
    Boolean,
    Categorical,
    Date,
    Datetime(TimeUnit),
    Float64,
    Int64,
    Utf8,
}

/// The type that a user-facing type name denotes, if any.
pub open spec fn dtype_named(name: Seq<char>) -> Option<DType> {
    if name == "binary"@ {
        Some(DType::Binary)
    } else if name == "bool"@ {
        Some(DType::Boolean)
    } else if name == "cat"@ {
        Some(DType::Categorical)
    } else if name == "date"@ {
        Some(DType::Date)
    } else if name == "datetime[ms]"@ {
        Some(DType::Datetime(TimeUnit::Milliseconds))
    } else if name == "datetime[ns]"@ {
        Some(DType::Datetime(TimeUnit::Nanoseconds))
    } else if name == "datetime[μs]"@ {
        Some(DType::Datetime(TimeUnit::Microseconds))
    } else if name == "f64"@ {
        Some(DType::Float64)
    } else if name == "i64"@ {
        Some(DType::Int64)
    } else if name == "str"@ {
        Some(DType::Utf8)
    } else {
        None
    }
}

/// Parses a user-facing type name; an unknown name is reported verbatim.
pub fn dtype_from_str(dtype: &str) -> (r: Result<DType, ExplorerError>)
    ensures
        match dtype_named(dtype@) {
            Some(d) => r == Ok::<DType, ExplorerError>(d),
            None => r matches Err(ExplorerError::UnsupportedOption(v)) && v@ == dtype@,
        },
{
    if same_text(dtype, "binary") {
        Ok(DType::Binary)
    } else if same_text(dtype, "bool") {
        Ok(DType::Boolean)
    } else if same_text(dtype, "cat") {
        Ok(DType::Categorical)
    } else if same_text(dtype, "date") {
        Ok(DType::Date)
    } else if same_text(dtype, "datetime[ms]") {
        Ok(DType::Datetime(TimeUnit::Milliseconds))
    } else if same_text(dtype, "datetime[ns]") {
        Ok(DType::Datetime(TimeUnit::Nanoseconds))
    } else if same_text(dtype, "datetime[μs]") {
        Ok(DType::Datetime(TimeUnit::Microseconds))
    } else if same_text(dtype, "f64") {
        Ok(DType::Float64)
    } else if same_text(dtype, "i64") {
        Ok(DType::Int64)
    } else if same_text(dtype, "str") {
        Ok(DType::Utf8)
    } else {
        Err(ExplorerError::UnsupportedOption(String::from_str(dtype)))
    }
}

} // verus!
