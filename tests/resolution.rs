use explorer_io::compression::{
    decode_ipc_compression, decode_ipc_stream_compression, ipc_compression_option, IpcCompression,
    IpcStreamCompression,
};
use explorer_io::dtype::{dtype_from_str, DType, TimeUnit};
use explorer_io::error::ExplorerError;
use explorer_io::normalize::{canonical_dtype, numeric_casts, ColumnType};
use explorer_io::options::{csv_encoding, csv_read_options, CsvEncoding};
use explorer_io::schema::schema_from_dtypes_pairs;
use explorer_io::text::{decimal_text, same_text};

#[test]
fn dtype_names_map_to_types() {
    assert_eq!(dtype_from_str("binary").unwrap(), DType::Binary);
    assert_eq!(dtype_from_str("bool").unwrap(), DType::Boolean);
    assert_eq!(dtype_from_str("cat").unwrap(), DType::Categorical);
    assert_eq!(dtype_from_str("date").unwrap(), DType::Date);
    assert_eq!(dtype_from_str("datetime[ms]").unwrap(), DType::Datetime(TimeUnit::Milliseconds));
    assert_eq!(dtype_from_str("datetime[μs]").unwrap(), DType::Datetime(TimeUnit::Microseconds));
    assert_eq!(dtype_from_str("datetime[ns]").unwrap(), DType::Datetime(TimeUnit::Nanoseconds));
    assert_eq!(dtype_from_str("f64").unwrap(), DType::Float64);
    assert_eq!(dtype_from_str("i64").unwrap(), DType::Int64);
    assert_eq!(dtype_from_str("str").unwrap(), DType::Utf8);
}

#[test]
fn unknown_type_name_is_named_in_the_error() {
    let err = schema_from_dtypes_pairs(vec![("x", "frobnicate")]).unwrap_err();
    assert_eq!(err, ExplorerError::UnsupportedOption("frobnicate".to_string()));
    assert!(err.message().contains("frobnicate"));
}

#[test]
fn first_unknown_type_name_is_reported() {
    let err = schema_from_dtypes_pairs(vec![("a", "i64"), ("b", "i32"), ("c", "u8")]).unwrap_err();
    assert_eq!(err, ExplorerError::UnsupportedOption("i32".to_string()));
}

#[test]
fn schema_keeps_declaration_order() {
    let s = schema_from_dtypes_pairs(vec![("b", "str"), ("a", "i64"), ("c", "bool")]).unwrap();
    assert_eq!(
        s.fields,
        vec![("b".to_string(), DType::Utf8), ("a".to_string(), DType::Int64), ("c".to_string(), DType::Boolean)]
    );
}

#[test]
fn duplicate_name_keeps_first_place_and_last_type() {
    let s = schema_from_dtypes_pairs(vec![("a", "i64"), ("b", "str"), ("a", "f64")]).unwrap();
    assert_eq!(s.fields, vec![("a".to_string(), DType::Float64), ("b".to_string(), DType::Utf8)]);
}

#[test]
fn empty_declarations_give_empty_schema() {
    let s = schema_from_dtypes_pairs(vec![]).unwrap();
    assert!(s.fields.is_empty());
}

#[test]
fn stream_compression_accepts_zstd() {
    assert_eq!(decode_ipc_stream_compression("zstd").unwrap(), IpcStreamCompression::Zstd);
    assert_eq!(decode_ipc_stream_compression("lz4").unwrap(), IpcStreamCompression::Lz4);
    assert_eq!(decode_ipc_compression("zstd").unwrap(), IpcCompression::Zstd);
}

#[test]
fn compression_outside_the_set_is_rejected() {
    assert_eq!(
        decode_ipc_stream_compression("snappy").unwrap_err(),
        ExplorerError::UnsupportedOption("snappy".to_string())
    );
    assert_eq!(decode_ipc_compression("ZSTD").unwrap_err(), ExplorerError::UnsupportedOption("ZSTD".to_string()));
    let err = decode_ipc_compression("gzip").unwrap_err();
    assert!(err.message().contains("gzip"));
}

#[test]
fn absent_compression_means_none() {
    assert_eq!(ipc_compression_option(None).unwrap(), None);
    assert_eq!(ipc_compression_option(Some("lz4")).unwrap(), Some(IpcCompression::Lz4));
}

#[test]
fn canonical_numeric_types() {
    for t in [ColumnType::Int8, ColumnType::Int16, ColumnType::Int32, ColumnType::UInt8, ColumnType::UInt16,
        ColumnType::UInt32, ColumnType::UInt64, ColumnType::Int64]
    {
        assert_eq!(canonical_dtype(t), ColumnType::Int64);
    }
    assert_eq!(canonical_dtype(ColumnType::Float32), ColumnType::Float64);
    assert_eq!(canonical_dtype(ColumnType::Float64), ColumnType::Float64);
    assert_eq!(canonical_dtype(ColumnType::Other), ColumnType::Other);
}

#[test]
fn cast_plan_lists_only_non_canonical_columns() {
    let types = vec![ColumnType::Int8, ColumnType::Other, ColumnType::Float32, ColumnType::Int64, ColumnType::UInt64];
    let casts = numeric_casts(&types);
    assert_eq!(casts, vec![(0, ColumnType::Int64), (2, ColumnType::Float64), (4, ColumnType::Int64)]);
}

#[test]
fn normalized_types_need_no_cast() {
    let types = vec![ColumnType::Int8, ColumnType::Float32, ColumnType::Other];
    let mut normalized = types.clone();
    for (i, t) in numeric_casts(&types) {
        normalized[i] = t;
    }
    assert_eq!(normalized, vec![ColumnType::Int64, ColumnType::Float64, ColumnType::Other]);
    assert!(numeric_casts(&normalized).is_empty());
}

#[test]
fn csv_encodings() {
    assert_eq!(csv_encoding("utf8").unwrap(), CsvEncoding::Utf8);
    assert_eq!(csv_encoding("utf8-lossy").unwrap(), CsvEncoding::LossyUtf8);
    assert_eq!(csv_encoding("latin1").unwrap_err(), ExplorerError::UnsupportedOption("latin1".to_string()));
}

#[test]
fn csv_options_default_line_terminator() {
    let o = csv_read_options(Some(10), true, None, 2, None, b';', false, None, vec![("a", "i64")], "utf8", vec![],
        true, None)
    .unwrap();
    assert_eq!(o.eol, b'\n');
    assert_eq!(o.delimiter, b';');
    assert_eq!(o.skip_rows, 2);
    assert_eq!(o.dtypes.fields, vec![("a".to_string(), DType::Int64)]);
    let o = csv_read_options(None, true, None, 0, None, b',', false, None, vec![], "utf8", vec![], false, Some(b'\r'))
        .unwrap();
    assert_eq!(o.eol, b'\r');
}

#[test]
fn csv_options_report_encoding_before_types() {
    let err = csv_read_options(None, true, None, 0, None, b',', false, None, vec![("a", "nope")], "ascii", vec![],
        false, None)
    .unwrap_err();
    assert_eq!(err, ExplorerError::UnsupportedOption("ascii".to_string()));
    let err = csv_read_options(None, true, None, 0, None, b',', false, None, vec![("a", "nope")], "utf8", vec![],
        false, None)
    .unwrap_err();
    assert_eq!(err, ExplorerError::UnsupportedOption("nope".to_string()));
}

#[test]
fn text_comparison() {
    assert!(same_text("datetime[μs]", "datetime[μs]"));
    assert!(!same_text("datetime[us]", "datetime[μs]"));
    assert!(!same_text("abc", "ab"));
    assert!(same_text("", ""));
}

#[test]
fn decimal_rendering() {
    assert_eq!(decimal_text(0), "0");
    assert_eq!(decimal_text(7), "7");
    assert_eq!(decimal_text(10), "10");
    assert_eq!(decimal_text(195), "195");
    assert_eq!(decimal_text(usize::MAX), usize::MAX.to_string());
}
