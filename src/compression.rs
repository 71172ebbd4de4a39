use vstd::prelude::*;
use crate::error::ExplorerError;
use crate::text::same_text;

verus! {

/// Compression of the binary exchange file format.
#[derive(Clone, Copy, Debug, PartialEq, Eq, Structural)]
pub enum IpcCompression {
    Lz4,
    Zstd,
}

/// Compression of the streaming variant of the exchange format. Its values
/// are deliberately a type of their own: the two container layouts are not
/// interchangeable.
#[derive(Clone, Copy, Debug, PartialEq, Eq, Structural)]
pub enum IpcStreamCompression {
    Lz4,
    Zstd,
}

/// Compression of the columnar file format.
#[derive(Clone, Copy, Debug, PartialEq, Eq, Structural)]
pub enum ParquetCompression {
    Uncompressed,
    Lz4Raw,
    Zstd,
}

/// The exchange-format algorithm that a name denotes.
pub open spec fn ipc_codec_named(name: Seq<char>) -> Option<IpcCompression> {
    if name == "lz4"@ {
        Some(IpcCompression::Lz4)
    } else if name == "zstd"@ {
        Some(IpcCompression::Zstd)
    } else {
        None
    }
}

/// The streaming-format algorithm that a name denotes.
pub open spec fn ipc_stream_codec_named(name: Seq<char>) -> Option<IpcStreamCompression> {
    if name == "lz4"@ {
        Some(IpcStreamCompression::Lz4)
    } else if name == "zstd"@ {
        Some(IpcStreamCompression::Zstd)
    } else {
        None
    }
}

/// `r` is the error that names `value` as unsupported.
pub open spec fn is_unsupported<T>(r: Result<T, ExplorerError>, value: Seq<char>) -> bool {
    r matches Err(ExplorerError::UnsupportedOption(v)) && v@ == value
}

/// Parses the name of an exchange-format compression algorithm.
pub fn decode_ipc_compression(compression: &str) -> (r: Result<IpcCompression, ExplorerError>)
    ensures
        match ipc_codec_named(compression@) {
            Some(c) => r == Ok::<IpcCompression, ExplorerError>(c),
            None => is_unsupported(r, compression@),
        },
{
    if same_text(compression, "lz4") {
        Ok(IpcCompression::Lz4)
    } else if same_text(compression, "zstd") {
        Ok(IpcCompression::Zstd)
    } else {
        Err(ExplorerError::UnsupportedOption(String::from_str(compression)))
    }
}

/// Parses the name of a streaming-format compression algorithm.
pub fn decode_ipc_stream_compression(compression: &str) -> (r: Result<IpcStreamCompression, ExplorerError>)
    ensures
        match ipc_stream_codec_named(compression@) {
            Some(c) => r == Ok::<IpcStreamCompression, ExplorerError>(c),
            None => is_unsupported(r, compression@),
        },
{
    if same_text(compression, "lz4") {
        Ok(IpcStreamCompression::Lz4)
    } else if same_text(compression, "zstd") {
        Ok(IpcStreamCompression::Zstd)
    } else {
        Err(ExplorerError::UnsupportedOption(String::from_str(compression)))
    }
}

/// An optional exchange-format algorithm name: none asks for no compression.
pub fn ipc_compression_option(compression: Option<&str>) -> (r: Result<Option<IpcCompression>, ExplorerError>)
    ensures
        match compression {
            None => r == Ok::<Option<IpcCompression>, ExplorerError>(None),
            Some(name) => match ipc_codec_named(name@) {
                Some(c) => r == Ok::<Option<IpcCompression>, ExplorerError>(Some(c)),
                None => is_unsupported(r, name@),
            },
        },
{
    match compression {
        Some(algo) => match decode_ipc_compression(algo) {
            Ok(c) => Ok(Some(c)),
            Err(e) => Err(e),
        },
        None => Ok(None),
    }
}

/// An optional streaming-format algorithm name: none asks for no compression.
pub fn ipc_stream_compression_option(compression: Option<&str>) -> (r: Result<
    Option<IpcStreamCompression>,
    ExplorerError,
>)
    ensures
        match compression {
            None => r == Ok::<Option<IpcStreamCompression>, ExplorerError>(None),
            Some(name) => match ipc_stream_codec_named(name@) {
                Some(c) => r == Ok::<Option<IpcStreamCompression>, ExplorerError>(Some(c)),
                None => is_unsupported(r, name@),
            },
        },
{
    match compression {
        Some(algo) => match decode_ipc_stream_compression(algo) {
            Ok(c) => Ok(Some(c)),
            Err(e) => Err(e),
        },
        None => Ok(None),
    }
}

} // verus!
