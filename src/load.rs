use vstd::prelude::*;
use polars::prelude::{
    CsvReader, DataFrame, DataType, IpcReader, IpcStreamReader, JsonFormat, JsonReader, NullValues,
    ParquetReader, PolarsError, SerReader,
};
use polars::prelude::Schema as FrameSchema;
use std::io::Cursor;
use std::sync::Arc;
use crate::capability::{enabled, require, Capabilities};
use crate::dtype::{dtype_named, DType, TimeUnit};
use crate::error::{Capability, ExplorerError};
use crate::frame::{all_canonical, codec_error, finish_reader, frame_types, normalized_outcome};
use crate::compression::is_unsupported;
use crate::options::{csv_read_options, encoding_named, CsvEncoding, CsvReadOptions};
use crate::schema::{all_named, pairs_view, Schema};
use crate::text::decimal_text;

verus! {

/// polars' schema: column names with their types.
#[verifier::external_type_specification]
#[verifier::external_body]
pub struct ExPolarsSchema(FrameSchema);

/// Relies on polars' `Schema::new`: a schema without columns.
#[verifier::external_body]
fn empty_polars_schema() -> FrameSchema {
    FrameSchema::new()
}

/// Relies on polars' `Schema::with_column`: adds the column with polars'
/// counterpart of `d`.
#[verifier::external_body]
fn add_polars_column(schema: &mut FrameSchema, name: &String, d: DType) {
    let d = match d {
        DType::Binary => DataType::Binary,
        DType::Boolean => DataType::Boolean,
        DType::Categorical => DataType::Categorical(None),
        DType::Date => DataType::Date,
        DType::Datetime(TimeUnit::Milliseconds) => DataType::Datetime(polars::prelude::TimeUnit::Milliseconds, None),
        DType::Datetime(TimeUnit::Microseconds) => DataType::Datetime(polars::prelude::TimeUnit::Microseconds, None),
        DType::Datetime(TimeUnit::Nanoseconds) => DataType::Datetime(polars::prelude::TimeUnit::Nanoseconds, None),
        DType::Float64 => DataType::Float64,
        DType::Int64 => DataType::Int64,
        DType::Utf8 => DataType::Utf8,
    };
    schema.with_column(name.as_str().into(), d);
}

/// Relies on polars' `CsvReader`: the frame that delimited text holds.
/// Without rechunking its layout follows the machine's thread count, so
/// nothing is stated of the result.
#[verifier::external_body]
fn decode_csv(bytes: &[u8], o: &CsvReadOptions, dtypes: FrameSchema) -> Result<DataFrame, PolarsError> {
    let encoding = match o.encoding {
        CsvEncoding::Utf8 => polars::prelude::CsvEncoding::Utf8,
        CsvEncoding::LossyUtf8 => polars::prelude::CsvEncoding::LossyUtf8,
    };
    CsvReader::new(Cursor::new(bytes)).infer_schema(o.infer_schema_length).has_header(o.has_header)
        .with_try_parse_dates(o.parse_dates).with_n_rows(o.stop_after_n_rows).with_delimiter(o.delimiter)
        .with_skip_rows(o.skip_rows).with_projection(o.projection.clone()).with_rechunk(o.rechunk)
        .with_encoding(encoding)
        .with_columns(o.columns.clone()).with_dtypes(Some(Arc::new(dtypes)))
        .with_null_values(Some(NullValues::AllColumns(o.null_values.clone())))
        .with_end_of_line_char(o.eol).finish()
}

/// Column names as character sequences.
pub open spec fn names_view(columns: Option<Vec<String>>) -> Option<Seq<Seq<char>>> {
    match columns {
        Some(v) => Some(v@.map_values(|s: String| s@)),
        None => None,
    }
}

/// Column positions as a sequence.
pub open spec fn indices_view(projection: Option<Vec<usize>>) -> Option<Seq<usize>> {
    match projection {
        Some(v) => Some(v@),
        None => None,
    }
}

/// The frame polars' `ParquetReader` reads from the bytes, if it succeeds.
pub uninterp spec fn parquet_decoded(
    bytes: Seq<u8>,
    n_rows: Option<usize>,
    columns: Option<Seq<Seq<char>>>,
    projection: Option<Seq<usize>>,
) -> Option<DataFrame>;

/// The frame polars' `IpcReader` reads from the bytes, if it succeeds.
pub uninterp spec fn ipc_decoded(bytes: Seq<u8>, columns: Option<Seq<Seq<char>>>, projection: Option<Seq<usize>>) -> Option<DataFrame>;

/// The frame polars' `IpcStreamReader` reads from the bytes, if it succeeds.
pub uninterp spec fn ipc_stream_decoded(
    bytes: Seq<u8>,
    columns: Option<Seq<Seq<char>>>,
    projection: Option<Seq<usize>>,
) -> Option<DataFrame>;

/// The frame polars' `JsonReader` reads from JSON lines, if it succeeds.
pub uninterp spec fn ndjson_decoded(bytes: Seq<u8>, infer_schema_length: Option<usize>, batch_size: usize) -> Option<DataFrame>;

/// A reader's result agrees with the named decoding.
pub open spec fn read_as(d: Option<DataFrame>, r: Result<DataFrame, PolarsError>) -> bool {
    match d {
        Some(df) => r == Ok::<DataFrame, PolarsError>(df),
        None => r is Err,
    }
}

/// `r` is what loading gives when the reader's outcome is `d`: the
/// normalized frame, or a decode error.
pub open spec fn loaded_as(d: Option<DataFrame>, r: Result<DataFrame, ExplorerError>) -> bool {
    match d {
        Some(d0) => normalized_outcome(d0, r),
        None => r matches Err(ExplorerError::Decode(_)),
    }
}

/// No two entries are equal.
pub open spec fn distinct<T>(s: Seq<T>) -> bool {
    forall|i: int, j: int| 0 <= i < j < s.len() ==> s[i] != s[j]
}

/// A selection by name names no column twice.
pub open spec fn names_distinct(columns: Option<Seq<Seq<char>>>) -> bool {
    match columns {
        Some(c) => distinct(c),
        None => true,
    }
}

/// A selection by position picks each column at most once, and only
/// columns that the file has.
pub open spec fn projection_fits(projection: Option<Seq<usize>>, width: Option<usize>) -> bool {
    match projection {
        Some(p) => width matches Some(w) && distinct(p) && forall|i: int| 0 <= i < p.len() ==> p[i] < w,
        None => true,
    }
}

/// The number of columns polars' `ParquetReader` finds in the file's schema.
pub uninterp spec fn parquet_width(bytes: Seq<u8>) -> Option<usize>;

/// The number of columns polars' `IpcReader` finds in the file's schema.
pub uninterp spec fn ipc_width(bytes: Seq<u8>) -> Option<usize>;

/// The number of columns polars' `IpcStreamReader` finds in the stream's schema.
pub uninterp spec fn ipc_stream_width(bytes: Seq<u8>) -> Option<usize>;

/// A width query's result agrees with the named width.
pub open spec fn width_as(w: Option<usize>, r: Result<usize, PolarsError>) -> bool {
    match w {
        Some(n) => r == Ok::<usize, PolarsError>(n),
        None => r is Err,
    }
}

/// Relies on polars' `ParquetReader::schema`: the number of columns.
#[verifier::external_body]
fn parquet_column_count(bytes: &[u8]) -> (r: Result<usize, PolarsError>)
    ensures
        width_as(parquet_width(bytes@), r),
{
    Ok(ParquetReader::new(Cursor::new(bytes)).schema()?.len())
}

/// Relies on polars' `IpcReader::schema`: the number of columns.
#[verifier::external_body]
fn ipc_column_count(bytes: &[u8]) -> (r: Result<usize, PolarsError>)
    ensures
        width_as(ipc_width(bytes@), r),
{
    Ok(IpcReader::new(Cursor::new(bytes)).schema()?.len())
}

/// Relies on polars' `IpcStreamReader::schema`: the number of columns.
#[verifier::external_body]
fn ipc_stream_column_count(bytes: &[u8]) -> (r: Result<usize, PolarsError>)
    ensures
        width_as(ipc_stream_width(bytes@), r),
{
    Ok(IpcStreamReader::new(Cursor::new(bytes)).schema()?.len())
}

/// Refuses a selection by name that repeats a name, giving the name.
fn check_names(columns: &Option<Vec<String>>) -> (r: Result<(), ExplorerError>)
    ensures
        r is Ok <==> names_distinct(names_view(*columns)),
        r is Err ==> r matches Err(ExplorerError::UnsupportedOption(_)),
{
    match columns {
        None => Ok(()),
        Some(c) => {
            let ghost s = c@.map_values(|x: String| x@);
            assert(names_view(*columns) == Some(s));
            let mut j: usize = 0;
            while j < c.len()
                invariant
                    s == c@.map_values(|x: String| x@),
                    names_view(*columns) == Some(s),
                    j <= c@.len(),
                    forall|a: int, b: int| 0 <= a < b < j ==> s[a] != s[b],
                decreases c@.len() - j,
            {
                let mut i: usize = 0;
                while i < j
                    invariant
                        s == c@.map_values(|x: String| x@),
                        names_view(*columns) == Some(s),
                    names_view(*columns) == Some(s),
                        i <= j < c@.len(),
                        forall|a: int| 0 <= a < i ==> s[a] != s[j as int],
                    decreases j - i,
                {
                    if c[i] == c[j] {
                        assert(s[i as int] == s[j as int]);
                        assert(!distinct(s));
                        return Err(ExplorerError::UnsupportedOption(c[j].clone()));
                    }
                    i = i + 1;
                }
                j = j + 1;
            }
            Ok(())
        },
    }
}

/// Refuses a selection by position that repeats a position or goes past
/// the last of `width` columns, giving the position.
fn check_indices(projection: &Option<Vec<usize>>, width: usize) -> (r: Result<(), ExplorerError>)
    ensures
        r is Ok <==> projection_fits(indices_view(*projection), Some(width)),
        r is Err ==> r matches Err(ExplorerError::UnsupportedOption(_)),
{
    match projection {
        None => Ok(()),
        Some(p) => {
            assert(indices_view(*projection) == Some(p@));
            let mut j: usize = 0;
            while j < p.len()
                invariant
                    j <= p@.len(),
                    indices_view(*projection) == Some(p@),
                    forall|a: int, b: int| 0 <= a < b < j ==> p@[a] != p@[b],
                    forall|a: int| 0 <= a < j ==> p@[a] < width,
                decreases p@.len() - j,
            {
                if p[j] >= width {
                    assert(!(p@[j as int] < width));
                    assert(!projection_fits(indices_view(*projection), Some(width)));
                    return Err(ExplorerError::UnsupportedOption(decimal_text(p[j])));
                }
                let mut i: usize = 0;
                while i < j
                    invariant
                        i <= j < p@.len(),
                        indices_view(*projection) == Some(p@),
                        forall|a: int| 0 <= a < i ==> p@[a] != p@[j as int],
                    decreases j - i,
                {
                    if p[i] == p[j] {
                        assert(!distinct(p@));
                        return Err(ExplorerError::UnsupportedOption(decimal_text(p[j])));
                    }
                    i = i + 1;
                }
                j = j + 1;
            }
            Ok(())
        },
    }
}

/// `r` is the outcome of a selective read: a repeated name, or a position
/// that repeats or lies past the last column, is refused; a file whose
/// schema cannot be read fails to decode; otherwise `r` is the normalized
/// frame that polars reads.
pub open spec fn selected_as(
    columns: Option<Seq<Seq<char>>>,
    projection: Option<Seq<usize>>,
    width: Option<usize>,
    d: Option<DataFrame>,
    r: Result<DataFrame, ExplorerError>,
) -> bool {
    if !names_distinct(columns) {
        r matches Err(ExplorerError::UnsupportedOption(_))
    } else if projection is Some && width is None {
        r matches Err(ExplorerError::Decode(_))
    } else if !projection_fits(projection, width) {
        r matches Err(ExplorerError::UnsupportedOption(_))
    } else {
        loaded_as(d, r)
    }
}

/// Relies on polars' `ParquetReader`: the selected rows and columns of a
/// columnar file, in one chunk per column.
#[verifier::external_body]
fn decode_parquet(
    bytes: &[u8],
    n_rows: Option<usize>,
    columns: Option<Vec<String>>,
    projection: Option<Vec<usize>>,
) -> (r: Result<DataFrame, PolarsError>)
    requires
        names_distinct(names_view(columns)),
        projection_fits(indices_view(projection), parquet_width(bytes@)),
    ensures
        read_as(parquet_decoded(bytes@, n_rows, names_view(columns), indices_view(projection)), r),
{
    ParquetReader::new(Cursor::new(bytes)).with_n_rows(n_rows).with_columns(columns).with_projection(projection)
        .set_rechunk(true).finish()
}

/// Relies on polars' `IpcReader`: the selected columns of an exchange file.
#[verifier::external_body]
fn decode_ipc(bytes: &[u8], columns: Option<Vec<String>>, projection: Option<Vec<usize>>) -> (r: Result<
    DataFrame,
    PolarsError,
>)
    requires
        names_distinct(names_view(columns)),
        projection_fits(indices_view(projection), ipc_width(bytes@)),
    ensures
        read_as(ipc_decoded(bytes@, names_view(columns), indices_view(projection)), r),
{
    IpcReader::new(Cursor::new(bytes)).with_columns(columns).with_projection(projection).finish()
}

/// Relies on polars' `IpcStreamReader`: the selected columns of an exchange stream.
#[verifier::external_body]
fn decode_ipc_stream(bytes: &[u8], columns: Option<Vec<String>>, projection: Option<Vec<usize>>) -> (r: Result<
    DataFrame,
    PolarsError,
>)
    requires
        names_distinct(names_view(columns)),
        projection_fits(indices_view(projection), ipc_stream_width(bytes@)),
    ensures
        read_as(ipc_stream_decoded(bytes@, names_view(columns), indices_view(projection)), r),
{
    IpcStreamReader::new(Cursor::new(bytes)).with_columns(columns).with_projection(projection).finish()
}

/// An ASCII whitespace byte, which polars skips on a line (it skips other
/// Unicode whitespace too; such lines are refused here).
pub open spec fn is_blank(c: u8) -> bool {
    c == 32u8 || c == 9u8 || c == 13u8 || c == 11u8 || c == 12u8
}

/// Every line of `b` is blank or starts, after blanks, with `{`. `fresh`
/// says that the line in progress has held only blanks so far.
pub open spec fn record_lines(b: Seq<u8>, fresh: bool) -> bool
    decreases b.len(),
{
    if b.len() == 0 {
        true
    } else {
        let rest = b.subrange(1, b.len() as int);
        if b[0] == 10u8 {
            record_lines(rest, true)
        } else if fresh && is_blank(b[0]) {
            record_lines(rest, true)
        } else if fresh {
            b[0] == 123u8 && record_lines(rest, false)
        } else {
            record_lines(rest, false)
        }
    }
}

/// The bytes are JSON lines that hold objects only, at least one of them.
pub open spec fn ndjson_records(b: Seq<u8>) -> bool {
    record_lines(b, true) && exists|i: int| 0 <= i < b.len() && b[i] == 123u8
}

/// Whether every non-blank line starts with `{`, with at least one such line.
pub fn ndjson_records_only(b: &[u8]) -> (r: bool)
    ensures
        r == ndjson_records(b@),
{
    let n = b.len();
    let mut i: usize = 0;
    let mut fresh = true;
    let mut seen = false;
    assert(b@.subrange(0, n as int) =~= b@);
    while i < n
        invariant
            n == b@.len(),
            i <= n,
            record_lines(b@, true) == record_lines(b@.subrange(i as int, n as int), fresh),
            seen <==> exists|j: int| 0 <= j < i && b@[j] == 123u8,
        decreases n - i,
    {
        let c = b[i];
        proof {
            let s = b@.subrange(i as int, n as int);
            assert(s[0] == c);
            assert(s.subrange(1, s.len() as int) =~= b@.subrange(i + 1, n as int));
        }
        if c == 10u8 {
            fresh = true;
        } else if fresh && (c == 32u8 || c == 9u8 || c == 13u8 || c == 11u8 || c == 12u8) {
        } else if fresh {
            if c != 123u8 {
                return false;
            }
            fresh = false;
        }
        if c == 123u8 {
            seen = true;
        }
        i = i + 1;
    }
    assert(b@.subrange(n as int, n as int).len() == 0);
    seen
}

/// Relies on polars' `JsonReader` in JSON-lines mode: the frame that
/// newline-delimited records hold. polars unwraps the fields of the type it
/// infers, which must therefore be an object, from at least one line.
#[verifier::external_body]
fn decode_ndjson(bytes: &[u8], infer_schema_length: Option<usize>, batch_size: usize) -> (r: Result<
    DataFrame,
    PolarsError,
>)
    requires
        infer_schema_length != Some(0usize),
        ndjson_records(bytes@),
    ensures
        read_as(ndjson_decoded(bytes@, infer_schema_length, batch_size), r),
{
    JsonReader::new(Cursor::new(bytes)).with_json_format(JsonFormat::JsonLines).with_batch_size(batch_size)
        .infer_schema_len(infer_schema_length).finish()
}

/// polars' counterpart of a schema, in the same column order.
fn to_polars_schema(schema: &Schema) -> FrameSchema {
    let mut out = empty_polars_schema();
    let mut i: usize = 0;
    while i < schema.fields.len()
        invariant
            i <= schema.fields@.len(),
        decreases schema.fields@.len() - i,
    {
        add_polars_column(&mut out, &schema.fields[i].0, schema.fields[i].1);
        i = i + 1;
    }
    out
}

/// Reads delimited text from memory with validated options; the frame's
/// numeric columns are normalized. Invalid options fail before any byte is
/// read, in the order `csv_read_options` checks them.
#[allow(clippy::too_many_arguments)]
pub fn df_load_csv(
    binary: &[u8],
    infer_schema_length: Option<usize>,
    has_header: bool,
    stop_after_n_rows: Option<usize>,
    skip_rows: usize,
    projection: Option<Vec<usize>>,
    delimiter_as_byte: u8,
    do_rechunk: bool,
    column_names: Option<Vec<String>>,
    dtypes: Vec<(&str, &str)>,
    encoding: &str,
    null_vals: Vec<String>,
    parse_dates: bool,
    eol_delimiter: Option<u8>,
) -> (r: Result<DataFrame, ExplorerError>)
    ensures
        encoding_named(encoding@).is_none() ==> (r matches Err(ExplorerError::UnsupportedOption(v))
            && v@ == encoding@),
        encoding_named(encoding@).is_some() && !all_named(pairs_view(dtypes@)) ==> exists|i: int|
            0 <= i < dtypes@.len() && #[trigger] dtype_named(dtypes@[i].1@).is_none()
                && (forall|j: int| 0 <= j < i ==> dtype_named(dtypes@[j].1@).is_some())
                && (r matches Err(ExplorerError::UnsupportedOption(v)) && v@ == dtypes@[i].1@),
        encoding_named(encoding@).is_some() && all_named(pairs_view(dtypes@)) ==> r is Ok || r matches Err(
            ExplorerError::Decode(_),
        ),
        r matches Ok(df) ==> all_canonical(frame_types(df)),
{
    let o = match csv_read_options(
        infer_schema_length,
        has_header,
        stop_after_n_rows,
        skip_rows,
        projection,
        delimiter_as_byte,
        do_rechunk,
        column_names,
        dtypes,
        encoding,
        null_vals,
        parse_dates,
        eol_delimiter,
    ) {
        Ok(o) => o,
        Err(e) => {
            return Err(e);
        },
    };
    let schema = to_polars_schema(&o.dtypes);
    finish_reader(decode_csv(binary, &o, schema))
}

/// Reads a columnar file from memory; numeric columns are normalized.
pub fn df_load_parquet(binary: &[u8]) -> (r: Result<DataFrame, ExplorerError>)
    ensures
        loaded_as(parquet_decoded(binary@, None, None, None), r),
{
    finish_reader(decode_parquet(binary, None, None, None))
}

/// Reads a columnar file from memory, stopping after `stop_after_n_rows`
/// rows and keeping the columns named or at the positions given; numeric
/// columns are normalized.
pub fn df_read_parquet(
    binary: &[u8],
    stop_after_n_rows: Option<usize>,
    column_names: Option<Vec<String>>,
    projection: Option<Vec<usize>>,
) -> (r: Result<DataFrame, ExplorerError>)
    ensures
        selected_as(
            names_view(column_names),
            indices_view(projection),
            parquet_width(binary@),
            parquet_decoded(binary@, stop_after_n_rows, names_view(column_names), indices_view(projection)),
            r,
        ),
{
    match check_names(&column_names) {
        Ok(()) => {},
        Err(e) => {
            return Err(e);
        },
    }
    if projection.is_some() {
        let width = match parquet_column_count(binary) {
            Ok(w) => w,
            Err(e) => {
                return Err(codec_error(&e));
            },
        };
        match check_indices(&projection, width) {
            Ok(()) => {},
            Err(e) => {
                return Err(e);
            },
        }
    }
    finish_reader(decode_parquet(binary, stop_after_n_rows, column_names, projection))
}

/// Reads an exchange file from memory, keeping the columns named or at the
/// positions given; numeric columns are normalized.
pub fn df_load_ipc(binary: &[u8], columns: Option<Vec<String>>, projection: Option<Vec<usize>>) -> (r: Result<
    DataFrame,
    ExplorerError,
>)
    ensures
        selected_as(
            names_view(columns),
            indices_view(projection),
            ipc_width(binary@),
            ipc_decoded(binary@, names_view(columns), indices_view(projection)),
            r,
        ),
{
    match check_names(&columns) {
        Ok(()) => {},
        Err(e) => {
            return Err(e);
        },
    }
    if projection.is_some() {
        let width = match ipc_column_count(binary) {
            Ok(w) => w,
            Err(e) => {
                return Err(codec_error(&e));
            },
        };
        match check_indices(&projection, width) {
            Ok(()) => {},
            Err(e) => {
                return Err(e);
            },
        }
    }
    finish_reader(decode_ipc(binary, columns, projection))
}

/// Reads an exchange stream from memory, keeping the columns named or at
/// the positions given; numeric columns are normalized.
pub fn df_load_ipc_stream(binary: &[u8], columns: Option<Vec<String>>, projection: Option<Vec<usize>>) -> (r:
    Result<DataFrame, ExplorerError>)
    ensures
        selected_as(
            names_view(columns),
            indices_view(projection),
            ipc_stream_width(binary@),
            ipc_stream_decoded(binary@, names_view(columns), indices_view(projection)),
            r,
        ),
{
    match check_names(&columns) {
        Ok(()) => {},
        Err(e) => {
            return Err(e);
        },
    }
    if projection.is_some() {
        let width = match ipc_stream_column_count(binary) {
            Ok(w) => w,
            Err(e) => {
                return Err(codec_error(&e));
            },
        };
        match check_indices(&projection, width) {
            Ok(()) => {},
            Err(e) => {
                return Err(e);
            },
        }
    }
    finish_reader(decode_ipc_stream(binary, columns, projection))
}

/// Reads newline-delimited JSON from memory, when this build offers it;
/// numeric columns are normalized. Type inference needs at least one line,
/// so a sample size of zero is refused, and every non-blank line must hold
/// a JSON object.
pub fn df_load_ndjson(caps: Capabilities, binary: &[u8], infer_schema_length: Option<usize>, batch_size: usize) -> (r:
    Result<DataFrame, ExplorerError>)
    ensures
        !enabled(caps, Capability::LineDelimited) ==> (r matches Err(ExplorerError::CapabilityDisabled(c))
            && c == Capability::LineDelimited),
        enabled(caps, Capability::LineDelimited) && infer_schema_length == Some(0usize) ==> is_unsupported(r, "0"@),
        enabled(caps, Capability::LineDelimited) && infer_schema_length != Some(0usize) && !ndjson_records(binary@)
            ==> r matches Err(ExplorerError::Decode(_)),
        enabled(caps, Capability::LineDelimited) && infer_schema_length != Some(0usize) && ndjson_records(binary@)
            ==> loaded_as(ndjson_decoded(binary@, infer_schema_length, batch_size), r),
{
    match require(caps, Capability::LineDelimited) {
        Ok(()) => {},
        Err(e) => {
            return Err(e);
        },
    }
    if infer_schema_length == Some(0usize) {
        return Err(ExplorerError::UnsupportedOption(String::from_str("0")));
    }
    if !ndjson_records_only(binary) {
        return Err(ExplorerError::Decode(String::from_str("every non-blank line must hold a JSON object")));
    }
    finish_reader(decode_ndjson(binary, infer_schema_length, batch_size))
}

} // verus!
