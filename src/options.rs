use vstd::prelude::*;
use crate::error::ExplorerError;
use crate::schema::{all_named, pairs_view, resolved, schema_from_dtypes_pairs, typed, Schema};
use crate::dtype::dtype_named;
use crate::text::same_text;

verus! {

/// How the bytes of delimited text are decoded.
#[derive(Clone, Copy, Debug, PartialEq, Eq, Structural)]
pub enum CsvEncoding {
    /// Invalid UTF-8 is an error.
    Utf8,
    /// Invalid UTF-8 is replaced.
    LossyUtf8,
}

/// The encoding that a name denotes.
pub open spec fn encoding_named(name: Seq<char>) -> Option<CsvEncoding> {
    if name == "utf8"@ {
        Some(CsvEncoding::Utf8)
    } else if name == "utf8-lossy"@ {
        Some(CsvEncoding::LossyUtf8)
    } else {
        None
    }
}

/// Parses an encoding name; an unknown one is reported verbatim.
pub fn csv_encoding(encoding: &str) -> (r: Result<CsvEncoding, ExplorerError>)
    ensures
        match encoding_named(encoding@) {
            Some(e) => r == Ok::<CsvEncoding, ExplorerError>(e),
            None => r matches Err(ExplorerError::UnsupportedOption(v)) && v@ == encoding@,
        },
{
    if same_text(encoding, "utf8") {
        Ok(CsvEncoding::Utf8)
    } else if same_text(encoding, "utf8-lossy") {
        Ok(CsvEncoding::LossyUtf8)
    } else {
        Err(ExplorerError::UnsupportedOption(String::from_str(encoding)))
    }
}

/// The line terminator used when none is given.
pub open spec fn default_eol() -> u8 {
    10u8
}

/// Everything a delimited-text reader is configured with, validated.
#[derive(Clone, Debug)]
pub struct CsvReadOptions {
    /// Rows sampled to infer column types; none samples every row.
    pub infer_schema_length: Option<usize>,
    pub has_header: bool,
    /// Stop after this many rows.
    pub stop_after_n_rows: Option<usize>,
    pub skip_rows: usize,
    /// Columns to keep, by position.
    pub projection: Option<Vec<usize>>,
    pub delimiter: u8,
    pub rechunk: bool,
    /// Columns to keep, by name.
    pub columns: Option<Vec<String>>,
    /// Types that override inference, by column name.
    pub dtypes: Schema,
    pub encoding: CsvEncoding,
    /// Cell values read as null, in every column.
    pub null_values: Vec<String>,
    pub parse_dates: bool,
    /// Line terminator; a newline unless given.
    pub eol: u8,
}

/// Validates and gathers the options of a delimited-text read. An unknown
/// encoding is reported first, then the first unknown type name.
#[allow(clippy::too_many_arguments)]
pub fn csv_read_options(
    infer_schema_length: Option<usize>,
    has_header: bool,
    stop_after_n_rows: Option<usize>,
    skip_rows: usize,
    projection: Option<Vec<usize>>,
    delimiter: u8,
    rechunk: bool,
    columns: Option<Vec<String>>,
    dtypes: Vec<(&str, &str)>,
    encoding: &str,
    null_values: Vec<String>,
    parse_dates: bool,
    eol_delimiter: Option<u8>,
) -> (r: Result<CsvReadOptions, ExplorerError>)
    ensures
        encoding_named(encoding@).is_none() ==> (r matches Err(ExplorerError::UnsupportedOption(v))
            && v@ == encoding@),
        encoding_named(encoding@).is_some() && !all_named(pairs_view(dtypes@)) ==> exists|i: int|
            0 <= i < dtypes@.len() && #[trigger] dtype_named(dtypes@[i].1@).is_none()
                && (forall|j: int| 0 <= j < i ==> dtype_named(dtypes@[j].1@).is_some())
                && (r matches Err(ExplorerError::UnsupportedOption(v)) && v@ == dtypes@[i].1@),
        encoding_named(encoding@).is_some() && all_named(pairs_view(dtypes@)) <==> r is Ok,
        r matches Ok(o) ==> {
            &&& o.infer_schema_length == infer_schema_length
            &&& o.has_header == has_header
            &&& o.stop_after_n_rows == stop_after_n_rows
            &&& o.skip_rows == skip_rows
            &&& o.projection == projection
            &&& o.delimiter == delimiter
            &&& o.rechunk == rechunk
            &&& o.columns == columns
            &&& o.dtypes@ == resolved(typed(pairs_view(dtypes@)))
            &&& Some(o.encoding) == encoding_named(encoding@)
            &&& o.null_values == null_values
            &&& o.parse_dates == parse_dates
            &&& o.eol == match eol_delimiter {
                Some(b) => b,
                None => default_eol(),
            }
        },
{
    let encoding = match csv_encoding(encoding) {
        Ok(e) => e,
        Err(e) => {
            return Err(e);
        },
    };
    let dtypes = match schema_from_dtypes_pairs(dtypes) {
        Ok(s) => s,
        Err(e) => {
            return Err(e);
        },
    };
    let eol = match eol_delimiter {
        Some(b) => b,
        None => 10u8,
    };
    Ok(CsvReadOptions {
        infer_schema_length,
        has_header,
        stop_after_n_rows,
        skip_rows,
        projection,
        delimiter,
        rechunk,
        columns,
        dtypes,
        encoding,
        null_values,
        parse_dates,
        eol,
    })
}

} // verus!
