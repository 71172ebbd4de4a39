use explorer_io::capability::{require, Capabilities};
use explorer_io::cloud::{s3_addressing, S3Config};
use explorer_io::cloud_writer::{Action, CloudWriter, Phase};
use explorer_io::error::{Capability, ExplorerError};

fn expect_part(a: Action, id: &str, number: usize, bytes: &[u8]) {
    match a {
        Action::UploadPart { upload_id, part_number, data } => {
            assert_eq!(upload_id, id);
            assert_eq!(part_number, number);
            assert_eq!(data, bytes.to_vec());
        }
        other => panic!("expected a part upload, got {:?}", other),
    }
}

fn expect_complete(a: Action, id: &str, tags: &[&str]) {
    match a {
        Action::Complete { upload_id, parts } => {
            assert_eq!(upload_id, id);
            let expected: Vec<(usize, String)> = tags.iter().enumerate().map(|(i, t)| (i + 1, t.to_string())).collect();
            assert_eq!(parts, expected);
        }
        other => panic!("expected completion, got {:?}", other),
    }
}

#[test]
fn upload_starts_only_on_first_write() {
    let mut w = CloudWriter::new(4);
    assert_eq!(w.phase(), Phase::Fresh);
    assert!(matches!(w.finish(), Action::Proceed));
    assert_eq!(w.phase(), Phase::Completed);
    assert_eq!(w.parts_stored(), 0);
}

#[test]
fn ten_bytes_in_parts_of_four_make_three_parts() {
    let mut w = CloudWriter::new(4);
    assert!(matches!(w.write(b"0123456789"), Action::Create));
    expect_part(w.upload_created("up-1".to_string()), "up-1", 1, b"0123");
    expect_part(w.part_stored("t1".to_string()), "up-1", 2, b"4567");
    assert!(matches!(w.part_stored("t2".to_string()), Action::Proceed));
    assert_eq!(w.phase(), Phase::Open);
    expect_part(w.finish(), "up-1", 3, b"89");
    expect_complete(w.part_stored("t3".to_string()), "up-1", &["t1", "t2", "t3"]);
    w.upload_completed();
    assert_eq!(w.phase(), Phase::Completed);
    assert_eq!(w.parts_stored(), 3);
}

#[test]
fn small_writes_are_buffered_until_a_part_is_full() {
    let mut w = CloudWriter::new(3);
    assert!(matches!(w.write(b"a"), Action::Create));
    assert!(matches!(w.upload_created("u".to_string()), Action::Proceed));
    assert!(matches!(w.write(b"b"), Action::Proceed));
    expect_part(w.write(b"cd"), "u", 1, b"abc");
    assert!(matches!(w.part_stored("x".to_string()), Action::Proceed));
    expect_part(w.finish(), "u", 2, b"d");
    expect_complete(w.part_stored("y".to_string()), "u", &["x", "y"]);
}

#[test]
fn exact_multiple_ends_with_an_empty_part() {
    let mut w = CloudWriter::new(4);
    assert!(matches!(w.write(b"abcdefgh"), Action::Create));
    expect_part(w.upload_created("u".to_string()), "u", 1, b"abcd");
    expect_part(w.part_stored("p1".to_string()), "u", 2, b"efgh");
    assert!(matches!(w.part_stored("p2".to_string()), Action::Proceed));
    expect_part(w.finish(), "u", 3, b"");
    expect_complete(w.part_stored("p3".to_string()), "u", &["p1", "p2", "p3"]);
}

#[test]
fn empty_first_write_still_starts_the_upload() {
    let mut w = CloudWriter::new(5);
    assert!(matches!(w.write(b""), Action::Create));
    assert!(matches!(w.upload_created("u".to_string()), Action::Proceed));
    expect_part(w.finish(), "u", 1, b"");
    expect_complete(w.part_stored("only".to_string()), "u", &["only"]);
}

#[test]
fn failed_part_aborts_with_the_original_error() {
    let mut w = CloudWriter::new(2);
    assert!(matches!(w.write(b"abcdef"), Action::Create));
    expect_part(w.upload_created("session-9".to_string()), "session-9", 1, b"ab");
    expect_part(w.part_stored("t1".to_string()), "session-9", 2, b"cd");
    let original = ExplorerError::ObjectStore("connection reset".to_string());
    match w.store_failed(original.clone()) {
        Action::Abort { upload_id, error } => {
            assert_eq!(upload_id, "session-9");
            assert_eq!(error, original);
        }
        other => panic!("expected an abort, got {:?}", other),
    }
    assert_eq!(w.phase(), Phase::Aborted);
    assert_eq!(w.parts_stored(), 1);
}

#[test]
fn failed_completion_aborts() {
    let mut w = CloudWriter::new(8);
    assert!(matches!(w.write(b"abc"), Action::Create));
    assert!(matches!(w.upload_created("u".to_string()), Action::Proceed));
    expect_part(w.finish(), "u", 1, b"abc");
    expect_complete(w.part_stored("t".to_string()), "u", &["t"]);
    let err = ExplorerError::ObjectStore("denied".to_string());
    assert!(matches!(w.store_failed(err), Action::Abort { .. }));
    assert_eq!(w.phase(), Phase::Aborted);
}

#[test]
fn failed_start_has_nothing_to_abort() {
    let mut w = CloudWriter::new(8);
    assert!(matches!(w.write(b"abc"), Action::Create));
    let err = ExplorerError::ObjectStore("no such bucket".to_string());
    match w.store_failed(err.clone()) {
        Action::Fail { error } => assert_eq!(error, err),
        other => panic!("expected a failure, got {:?}", other),
    }
    assert_eq!(w.phase(), Phase::Failed);
}

fn config(bucket: Option<&str>) -> S3Config {
    S3Config {
        endpoint: "http://localhost:9000".to_string(),
        region: "us-east-1".to_string(),
        access_key_id: "key".to_string(),
        secret_access_key: "secret".to_string(),
        token: None,
        bucket: bucket.map(|b| b.to_string()),
    }
}

#[test]
fn named_bucket_is_path_addressed() {
    let a = s3_addressing(&config(Some("data")));
    assert_eq!(a.bucket_name, "data");
    assert!(!a.virtual_hosted_style);
}

#[test]
fn missing_bucket_uses_virtual_hosted_style() {
    let a = s3_addressing(&config(None));
    assert_eq!(a.bucket_name, "explorer-default-bucket-name");
    assert!(a.virtual_hosted_style);
}

#[test]
fn disabled_capability_is_reported() {
    let caps = Capabilities { line_delimited: false, cloud_store: true };
    assert_eq!(require(caps, Capability::LineDelimited), Err(ExplorerError::CapabilityDisabled(Capability::LineDelimited)));
    assert_eq!(require(caps, Capability::CloudStore), Ok(()));
    assert_eq!(require(Capabilities::all(), Capability::LineDelimited), Ok(()));
    let err = ExplorerError::CapabilityDisabled(Capability::LineDelimited);
    assert_eq!(err.message(), "this build was compiled without newline-delimited JSON support");
    let err = ExplorerError::CapabilityDisabled(Capability::CloudStore);
    assert_eq!(err.message(), "this build was compiled without object store support");
}
