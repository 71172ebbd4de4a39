use explorer_io::capability::Capabilities;
use explorer_io::compression::ParquetCompression;
use explorer_io::dump::{df_dump_csv, df_dump_ipc, df_dump_ipc_stream, df_dump_ndjson, df_dump_parquet};
use explorer_io::error::{Capability, ExplorerError};
use explorer_io::load::{
    df_load_csv, df_load_ipc, df_load_ipc_stream, df_load_ndjson, df_load_parquet, df_read_parquet,
    ndjson_records_only,
};
use polars::prelude::{DataFrame, DataType, NamedFrom, Series, TakeRandom};

fn sample() -> DataFrame {
    DataFrame::new(vec![
        Series::new("id", &[1i64, 2, 3]),
        Series::new("score", &[Some(1.5f64), None, Some(-2.25)]),
        Series::new("name", &["a", "b", "c"]),
    ])
    .unwrap()
}

fn narrow() -> DataFrame {
    DataFrame::new(vec![
        Series::new("small", &[Some(1i32), None, Some(3)]),
        Series::new("tiny", &[7u8, 8, 9]),
        Series::new("ratio", &[0.5f32, 1.0, 2.0]),
        Series::new("label", &["x", "y", "z"]),
    ])
    .unwrap()
}

fn no_ndjson() -> Capabilities {
    Capabilities { line_delimited: false, cloud_store: true }
}

#[test]
fn parquet_round_trip() {
    let df = sample();
    let bytes = df_dump_parquet(&df, ParquetCompression::Zstd).unwrap();
    let back = df_load_parquet(&bytes).unwrap();
    assert!(back.frame_equal_missing(&df));
    assert!(sample().frame_equal_missing(&df));
}

#[test]
fn parquet_uncompressed_and_lz4_round_trip() {
    let df = sample();
    for c in [ParquetCompression::Uncompressed, ParquetCompression::Lz4Raw] {
        let back = df_load_parquet(&df_dump_parquet(&df, c).unwrap()).unwrap();
        assert!(back.frame_equal_missing(&df));
    }
}

#[test]
fn parquet_read_options() {
    let df = sample();
    let bytes = df_dump_parquet(&df, ParquetCompression::Uncompressed).unwrap();
    let back = df_read_parquet(&bytes, Some(2), Some(vec!["name".to_string()]), None).unwrap();
    assert_eq!(back.shape(), (2, 1));
    assert_eq!(back.get_column_names(), vec!["name"]);
}

#[test]
fn ipc_round_trip() {
    let df = sample();
    for c in [None, Some("lz4"), Some("zstd")] {
        let bytes = df_dump_ipc(&df, c).unwrap();
        let back = df_load_ipc(&bytes, None, None).unwrap();
        assert!(back.frame_equal_missing(&df));
    }
}

#[test]
fn ipc_projection_by_position() {
    let df = sample();
    let bytes = df_dump_ipc(&df, None).unwrap();
    let back = df_load_ipc(&bytes, None, Some(vec![2])).unwrap();
    assert_eq!(back.get_column_names(), vec!["name"]);
}

#[test]
fn ipc_stream_round_trip() {
    let df = sample();
    for c in [None, Some("lz4"), Some("zstd")] {
        let bytes = df_dump_ipc_stream(&df, c).unwrap();
        let back = df_load_ipc_stream(&bytes, None, None).unwrap();
        assert!(back.frame_equal_missing(&df));
    }
}

#[test]
fn ipc_rejects_unknown_algorithm() {
    let df = sample();
    assert_eq!(df_dump_ipc(&df, Some("snappy")).unwrap_err(), ExplorerError::UnsupportedOption("snappy".to_string()));
    assert_eq!(
        df_dump_ipc_stream(&df, Some("brotli")).unwrap_err(),
        ExplorerError::UnsupportedOption("brotli".to_string())
    );
}

#[test]
fn csv_round_trip() {
    let df = sample();
    let bytes = df_dump_csv(&df, true, b',').unwrap();
    let back = df_load_csv(&bytes, Some(100), true, None, 0, None, b',', false, None, vec![], "utf8", vec![], false,
        None)
    .unwrap();
    assert!(back.frame_equal_missing(&df));
}

#[test]
fn csv_dump_text() {
    let df = DataFrame::new(vec![Series::new("a", &[1i64, 2]), Series::new("b", &["x", "y"])]).unwrap();
    let bytes = df_dump_csv(&df, true, b';').unwrap();
    assert_eq!(String::from_utf8(bytes).unwrap(), "a;b\n1;x\n2;y\n");
    let bytes = df_dump_csv(&df, false, b',').unwrap();
    assert_eq!(String::from_utf8(bytes).unwrap(), "1,x\n2,y\n");
}

#[test]
fn csv_type_override() {
    let text = b"a,b\n1,2\n3,4\n";
    let df = df_load_csv(text, None, true, None, 0, None, b',', false, None, vec![("a", "f64")], "utf8", vec![],
        false, None)
    .unwrap();
    assert_eq!(df.dtypes(), vec![DataType::Float64, DataType::Int64]);
}

#[test]
fn csv_null_tokens_and_row_cap() {
    let text = b"a,b\n1,NA\n2,x\n3,y\n";
    let df = df_load_csv(text, None, true, Some(2), 0, None, b',', false, None, vec![], "utf8",
        vec!["NA".to_string()], false, None)
    .unwrap();
    assert_eq!(df.height(), 2);
    assert_eq!(df.column("b").unwrap().null_count(), 1);
}

#[test]
fn csv_rejects_unknown_type() {
    let err = df_load_csv(b"x\n1\n", None, true, None, 0, None, b',', false, None, vec![("x", "frobnicate")], "utf8",
        vec![], false, None)
    .unwrap_err();
    assert_eq!(err, ExplorerError::UnsupportedOption("frobnicate".to_string()));
}

#[test]
fn malformed_bytes_are_a_decode_error() {
    assert!(matches!(df_load_parquet(b"not a parquet file"), Err(ExplorerError::Decode(_))));
    assert!(matches!(df_load_ipc(b"nope", None, None), Err(ExplorerError::Decode(_))));
}

#[test]
fn ndjson_round_trip() {
    let df = sample();
    let bytes = df_dump_ndjson(Capabilities::all(), &df).unwrap();
    let back = df_load_ndjson(Capabilities::all(), &bytes, None, 1024).unwrap();
    assert_eq!(back.get_column_names(), df.get_column_names());
    assert!(back.column("id").unwrap().series_equal(df.column("id").unwrap()));
    assert!(back.column("name").unwrap().series_equal(df.column("name").unwrap()));
}

#[test]
fn ndjson_disabled_everywhere() {
    let df = sample();
    let expected = ExplorerError::CapabilityDisabled(Capability::LineDelimited);
    assert_eq!(df_dump_ndjson(no_ndjson(), &df).unwrap_err(), expected);
    assert_eq!(df_load_ndjson(no_ndjson(), b"{\"a\":1}\n", None, 10).unwrap_err(), expected);
    assert_eq!(df_load_ndjson(no_ndjson(), b"", None, 10).unwrap_err(), expected);
}

#[test]
fn loading_normalizes_numeric_columns() {
    let df = narrow();
    let back = df_load_parquet(&df_dump_parquet(&df, ParquetCompression::Uncompressed).unwrap()).unwrap();
    assert_eq!(back.dtypes(), vec![DataType::Int64, DataType::Int64, DataType::Float64, DataType::Utf8]);
    let small = back.column("small").unwrap();
    assert_eq!(small.null_count(), 1);
    assert_eq!(small.i64().unwrap().get(2), Some(3));
    assert_eq!(back.column("tiny").unwrap().i64().unwrap().get(0), Some(7));
    assert_eq!(df.dtypes()[0], DataType::Int32);
}

#[test]
fn normalizing_twice_changes_nothing() {
    let df = narrow();
    let once = df_load_ipc(&df_dump_ipc(&df, None).unwrap(), None, None).unwrap();
    let twice = df_load_ipc(&df_dump_ipc(&once, None).unwrap(), None, None).unwrap();
    assert!(once.frame_equal_missing(&twice));
    assert_eq!(once.dtypes(), twice.dtypes());
}

#[test]
fn csv_header_needs_ascii_delimiter() {
    let df = sample();
    assert_eq!(
        df_dump_csv(&df, true, 0xC3).unwrap_err(),
        ExplorerError::UnsupportedOption("195".to_string())
    );
    assert!(df_dump_csv(&df, false, 0xC3).is_ok());
}

#[test]
fn ndjson_rejects_input_without_records() {
    let all = Capabilities::all();
    assert!(matches!(df_load_ndjson(all, b"1\n2\n", None, 10), Err(ExplorerError::Decode(_))));
    assert!(matches!(df_load_ndjson(all, b"null\nnull\n", None, 10), Err(ExplorerError::Decode(_))));
    assert!(matches!(df_load_ndjson(all, b"\n  \n", None, 10), Err(ExplorerError::Decode(_))));
    assert_eq!(
        df_load_ndjson(all, b"{\"a\":1}\n", Some(0), 10).unwrap_err(),
        ExplorerError::UnsupportedOption("0".to_string())
    );
    let df = df_load_ndjson(all, b"{\"a\":1}\n\n  {\"a\":2}\n", Some(1), 10).unwrap();
    assert_eq!(df.height(), 2);
}

#[test]
fn ndjson_record_check() {
    assert!(ndjson_records_only(b"{\"a\":1}\n{\"a\":2}"));
    assert!(ndjson_records_only(b" \t{}\r\n\n"));
    assert!(!ndjson_records_only(b"{\"a\":1}\n[1]\n"));
    assert!(!ndjson_records_only(b""));
    assert!(!ndjson_records_only(b"   \n"));
}

#[test]
fn projection_past_last_column_is_refused() {
    let df = sample();
    let ipc = df_dump_ipc(&df, None).unwrap();
    assert_eq!(df_load_ipc(&ipc, None, Some(vec![3])).unwrap_err(), ExplorerError::UnsupportedOption("3".to_string()));
    let stream = df_dump_ipc_stream(&df, None).unwrap();
    assert_eq!(
        df_load_ipc_stream(&stream, None, Some(vec![7])).unwrap_err(),
        ExplorerError::UnsupportedOption("7".to_string())
    );
    let pq = df_dump_parquet(&df, ParquetCompression::Uncompressed).unwrap();
    assert_eq!(
        df_read_parquet(&pq, None, None, Some(vec![0, 12])).unwrap_err(),
        ExplorerError::UnsupportedOption("12".to_string())
    );
}

#[test]
fn repeated_selection_is_refused() {
    let df = sample();
    let ipc = df_dump_ipc(&df, None).unwrap();
    assert_eq!(df_load_ipc(&ipc, None, Some(vec![1, 1])).unwrap_err(), ExplorerError::UnsupportedOption("1".to_string()));
    let pq = df_dump_parquet(&df, ParquetCompression::Uncompressed).unwrap();
    assert_eq!(
        df_read_parquet(&pq, None, Some(vec!["id".to_string(), "id".to_string()]), None).unwrap_err(),
        ExplorerError::UnsupportedOption("id".to_string())
    );
    let back = df_read_parquet(&pq, None, None, Some(vec![2, 0])).unwrap();
    assert_eq!(back.width(), 2);
}

#[test]
fn projection_on_unreadable_bytes_is_a_decode_error() {
    assert!(matches!(df_load_ipc(b"garbage", None, Some(vec![0])), Err(ExplorerError::Decode(_))));
}

#[test]
fn ndjson_refuses_binary_columns() {
    let df = DataFrame::new(vec![
        Series::new("id", &[1i64, 2]),
        Series::new("blob", &[b"ab".as_ref(), b"c".as_ref()]),
    ])
    .unwrap();
    assert_eq!(
        df_dump_ndjson(Capabilities::all(), &df).unwrap_err(),
        ExplorerError::UnsupportedOption("blob".to_string())
    );
}
