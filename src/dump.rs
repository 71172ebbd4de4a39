use vstd::prelude::*;
use polars::prelude::{
    CsvWriter, DataFrame, IpcStreamWriter, IpcWriter, JsonFormat, JsonWriter, ParquetWriter, PolarsError,
    SerWriter,
};
use crate::frame::{codec_error, column_count, column_kind_at, column_name_at, frame_kinds, frame_names, ColumnKind};
use crate::text::{decimal, decimal_text};
use crate::capability::{enabled, require, Capabilities};
use crate::compression::{
    ipc_codec_named, ipc_compression_option, ipc_stream_codec_named, ipc_stream_compression_option,
    is_unsupported, IpcCompression, IpcStreamCompression, ParquetCompression,
};
use crate::error::{Capability, ExplorerError};

verus! {

/// What polars' `CsvWriter` makes of a frame, if it succeeds.
pub uninterp spec fn csv_encoded(df: DataFrame, has_header: bool, delimiter: u8) -> Option<Seq<u8>>;

/// What polars' `ParquetWriter` makes of a frame, if it succeeds.
pub uninterp spec fn parquet_encoded(df: DataFrame, compression: ParquetCompression) -> Option<Seq<u8>>;

/// What polars' `IpcWriter` makes of a frame, if it succeeds.
pub uninterp spec fn ipc_encoded(df: DataFrame, compression: Option<IpcCompression>) -> Option<Seq<u8>>;

/// What polars' `IpcStreamWriter` makes of a frame, if it succeeds.
pub uninterp spec fn ipc_stream_encoded(df: DataFrame, compression: Option<IpcStreamCompression>) -> Option<Seq<u8>>;

/// What polars' `JsonWriter` in JSON-lines mode makes of a frame, if it succeeds.
pub uninterp spec fn ndjson_encoded(df: DataFrame) -> Option<Seq<u8>>;

/// `r` carries the bytes an encoder produced, or a decode error when it failed.
pub open spec fn encoded_as(e: Option<Seq<u8>>, r: Result<Vec<u8>, ExplorerError>) -> bool {
    match e {
        Some(b) => r matches Ok(v) && v@ == b,
        None => r matches Err(ExplorerError::Decode(_)),
    }
}

/// A wrapper's result agrees with the named encoding.
pub open spec fn wrapped_as(e: Option<Seq<u8>>, r: Result<Vec<u8>, PolarsError>) -> bool {
    match e {
        Some(b) => r matches Ok(v) && v@ == b,
        None => r is Err,
    }
}

/// A header is written by turning the delimiter into text, which polars
/// can do only for an ASCII byte.
pub open spec fn csv_delimiter_ok(has_header: bool, delimiter: u8) -> bool {
    !has_header || delimiter < 128
}

/// Whether a text writer handles a column of this kind. Neither writes a
/// time zone in this build; the JSON writer handles only the listed kinds.
pub open spec fn writable(k: ColumnKind, json: bool) -> bool {
    k != ColumnKind::ZonedDatetime && (!json || k != ColumnKind::Other)
}

/// Every column of the frame can be written.
pub open spec fn writable_frame(df: DataFrame, json: bool) -> bool {
    forall|i: int| 0 <= i < frame_kinds(df).len() ==> writable(#[trigger] frame_kinds(df)[i], json)
}

/// `r` refuses the frame, naming one of its columns that cannot be written.
pub open spec fn refuses_column(df: DataFrame, json: bool, r: Result<Vec<u8>, ExplorerError>) -> bool {
    exists|i: int|
        0 <= i < frame_kinds(df).len() && !writable(#[trigger] frame_kinds(df)[i], json) && (r matches Err(
            ExplorerError::UnsupportedOption(v),
        ) && v@ == frame_names(df)[i])
}

/// The first column that a text writer cannot write.
fn first_unwritable(df: &DataFrame, json: bool) -> (r: Option<usize>)
    ensures
        match r {
            None => writable_frame(*df, json),
            Some(i) => i < frame_kinds(*df).len() && i < frame_names(*df).len() && !writable(
                frame_kinds(*df)[i as int],
                json,
            ),
        },
{
    let n = column_count(df);
    let mut i: usize = 0;
    while i < n
        invariant
            n == frame_kinds(*df).len(),
            n == frame_names(*df).len(),
            i <= n,
            forall|j: int| 0 <= j < i ==> writable(#[trigger] frame_kinds(*df)[j], json),
        decreases n - i,
    {
        let k = column_kind_at(df, i);
        if k == ColumnKind::ZonedDatetime || (json && k == ColumnKind::Other) {
            return Some(i);
        }
        i = i + 1;
    }
    None
}

/// Refuses a frame with a column the writer cannot write, naming it.
fn check_writable(df: &DataFrame, json: bool) -> (r: Result<(), ExplorerError>)
    ensures
        r is Ok <==> writable_frame(*df, json),
        r matches Err(e) ==> refuses_column(*df, json, Err(e)),
{
    match first_unwritable(df, json) {
        None => Ok(()),
        Some(i) => {
            let name = column_name_at(df, i);
            let e = ExplorerError::UnsupportedOption(name);
            assert(refuses_column(*df, json, Err(e)) ) by {
                assert(!writable(frame_kinds(*df)[i as int], json));
            }
            Err(e)
        },
    }
}

/// Relies on polars' `CsvWriter`: the frame as delimited text. The header
/// row needs an ASCII delimiter: polars unwraps its conversion to UTF-8;
/// and this build of polars panics on a time zone.
#[verifier::external_body]
fn encode_csv(data: &DataFrame, has_header: bool, delimiter: u8) -> (r: Result<Vec<u8>, PolarsError>)
    requires
        csv_delimiter_ok(has_header, delimiter),
        writable_frame(*data, false),
    ensures
        wrapped_as(csv_encoded(*data, has_header, delimiter), r),
{
    let mut buf = vec![];
    CsvWriter::new(&mut buf).has_header(has_header).with_delimiter(delimiter).finish(&mut data.clone())?;
    Ok(buf)
}

/// Relies on polars' `ParquetWriter`: the frame as a columnar file.
#[verifier::external_body]
fn encode_parquet(data: &DataFrame, compression: ParquetCompression) -> (r: Result<Vec<u8>, PolarsError>)
    ensures
        wrapped_as(parquet_encoded(*data, compression), r),
{
    let compression = match compression {
        ParquetCompression::Uncompressed => polars::prelude::ParquetCompression::Uncompressed,
        ParquetCompression::Lz4Raw => polars::prelude::ParquetCompression::Lz4Raw,
        ParquetCompression::Zstd => polars::prelude::ParquetCompression::Zstd(None),
    };
    let mut buf = vec![];
    ParquetWriter::new(&mut buf).with_compression(compression).finish(&mut data.clone())?;
    Ok(buf)
}

/// Relies on polars' `IpcWriter`: the frame in the exchange file format.
#[verifier::external_body]
fn encode_ipc(data: &DataFrame, compression: Option<IpcCompression>) -> (r: Result<Vec<u8>, PolarsError>)
    ensures
        wrapped_as(ipc_encoded(*data, compression), r),
{
    let compression = compression.map(|c| match c {
        IpcCompression::Lz4 => polars::prelude::IpcCompression::LZ4,
        IpcCompression::Zstd => polars::prelude::IpcCompression::ZSTD,
    });
    let mut buf = vec![];
    IpcWriter::new(&mut buf).with_compression(compression).finish(&mut data.clone())?;
    Ok(buf)
}

/// Relies on polars' `IpcStreamWriter`: the frame in the streaming exchange format.
#[verifier::external_body]
fn encode_ipc_stream(data: &DataFrame, compression: Option<IpcStreamCompression>) -> (r: Result<
    Vec<u8>,
    PolarsError,
>)
    ensures
        wrapped_as(ipc_stream_encoded(*data, compression), r),
{
    let compression = compression.map(|c| match c {
        IpcStreamCompression::Lz4 => polars::export::arrow::io::ipc::write::Compression::LZ4,
        IpcStreamCompression::Zstd => polars::export::arrow::io::ipc::write::Compression::ZSTD,
    });
    let mut buf = vec![];
    IpcStreamWriter::new(&mut buf).with_compression(compression).finish(&mut data.clone())?;
    Ok(buf)
}

/// Relies on polars' `JsonWriter`: the frame as one JSON record per line.
/// The underlying arrow2 serializer stops (`todo!`) on binary, time,
/// duration, null and zoned timestamp columns.
#[verifier::external_body]
fn encode_ndjson(data: &DataFrame) -> (r: Result<Vec<u8>, PolarsError>)
    requires
        writable_frame(*data, true),
    ensures
        wrapped_as(ndjson_encoded(*data), r),
{
    let mut buf = vec![];
    JsonWriter::new(&mut buf).with_json_format(JsonFormat::JsonLines).finish(&mut data.clone())?;
    Ok(buf)
}

/// The result of an encoder, with its failure as a decode error.
fn encoded(r: Result<Vec<u8>, PolarsError>) -> (out: Result<Vec<u8>, ExplorerError>)
    ensures
        forall|e: Option<Seq<u8>>| wrapped_as(e, r) ==> encoded_as(e, out),
{
    match r {
        Ok(b) => Ok(b),
        Err(e) => Err(codec_error(&e)),
    }
}

/// The frame as delimited text. The frame is only read. With a header row
/// the delimiter must be an ASCII byte (the error gives its value); a
/// timestamp column with a time zone is refused by name.
pub fn df_dump_csv(data: &DataFrame, has_headers: bool, delimiter: u8) -> (r: Result<Vec<u8>, ExplorerError>)
    ensures
        !csv_delimiter_ok(has_headers, delimiter) ==> is_unsupported(r, decimal(delimiter as nat)),
        csv_delimiter_ok(has_headers, delimiter) && !writable_frame(*data, false) ==> refuses_column(*data, false, r),
        csv_delimiter_ok(has_headers, delimiter) && writable_frame(*data, false) ==> encoded_as(
            csv_encoded(*data, has_headers, delimiter),
            r,
        ),
{
    if has_headers && delimiter >= 128 {
        return Err(ExplorerError::UnsupportedOption(decimal_text(delimiter as usize)));
    }
    match check_writable(data, false) {
        Ok(()) => {},
        Err(e) => {
            return Err(e);
        },
    }
    encoded(encode_csv(data, has_headers, delimiter))
}

/// The frame as a columnar file with the given compression.
pub fn df_dump_parquet(data: &DataFrame, compression: ParquetCompression) -> (r: Result<Vec<u8>, ExplorerError>)
    ensures
        encoded_as(parquet_encoded(*data, compression), r),
{
    encoded(encode_parquet(data, compression))
}

/// The frame in the exchange file format. An algorithm name outside that
/// format's set is rejected before anything is encoded.
pub fn df_dump_ipc(data: &DataFrame, compression: Option<&str>) -> (r: Result<Vec<u8>, ExplorerError>)
    ensures
        match compression {
            None => encoded_as(ipc_encoded(*data, None), r),
            Some(name) => match ipc_codec_named(name@) {
                None => is_unsupported(r, name@),
                Some(c) => encoded_as(ipc_encoded(*data, Some(c)), r),
            },
        },
{
    match ipc_compression_option(compression) {
        Ok(c) => encoded(encode_ipc(data, c)),
        Err(e) => Err(e),
    }
}

/// The frame in the streaming exchange format. An algorithm name outside
/// that format's set is rejected before anything is encoded.
pub fn df_dump_ipc_stream(data: &DataFrame, compression: Option<&str>) -> (r: Result<Vec<u8>, ExplorerError>)
    ensures
        match compression {
            None => encoded_as(ipc_stream_encoded(*data, None), r),
            Some(name) => match ipc_stream_codec_named(name@) {
                None => is_unsupported(r, name@),
                Some(c) => encoded_as(ipc_stream_encoded(*data, Some(c)), r),
            },
        },
{
    match ipc_stream_compression_option(compression) {
        Ok(c) => encoded(encode_ipc_stream(data, c)),
        Err(e) => Err(e),
    }
}

/// The frame as newline-delimited JSON, when this build offers it. Only
/// boolean, numeric, text, categorical, date and zone-less timestamp
/// columns can be written; another column is refused by name.
pub fn df_dump_ndjson(caps: Capabilities, data: &DataFrame) -> (r: Result<Vec<u8>, ExplorerError>)
    ensures
        !enabled(caps, Capability::LineDelimited) ==> r == Err::<Vec<u8>, ExplorerError>(
            ExplorerError::CapabilityDisabled(Capability::LineDelimited),
        ),
        enabled(caps, Capability::LineDelimited) && !writable_frame(*data, true) ==> refuses_column(*data, true, r),
        enabled(caps, Capability::LineDelimited) && writable_frame(*data, true) ==> encoded_as(
            ndjson_encoded(*data),
            r,
        ),
{
    match require(caps, Capability::LineDelimited) {
        Ok(()) => {},
        Err(e) => {
            return Err(e);
        },
    }
    match check_writable(data, true) {
        Ok(()) => {},
        Err(e) => {
            return Err(e);
        },
    }
    encoded(encode_ndjson(data))
}

} // verus!
