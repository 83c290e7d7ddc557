use crater_ohos::results::{
    DiagnosticCode, EncodedLog, EncodingType, FailureReason, ProgressData, TestResult,
};
use crater_ohos::Error;
use flate2::write::GzEncoder;
use flate2::Compression;
use std::io::Write;

#[test]
fn test_test_result_serialization() {
    let result = TestResult::TestPass;
    let json = result.to_json();
    let parsed = TestResult::from_json(&json).unwrap();
    assert_eq!(parsed, TestResult::TestPass);

    let result = TestResult::BuildFail(FailureReason::Timeout);
    let json = result.to_json();
    let parsed = TestResult::from_json(&json).unwrap();
    assert_eq!(parsed, TestResult::BuildFail(FailureReason::Timeout));
}

#[test]
fn test_test_result_is_failure() {
    assert!(TestResult::BuildFail(FailureReason::Unknown).is_failure());
    assert!(TestResult::TestFail(FailureReason::Timeout).is_failure());
    assert!(!TestResult::TestPass.is_failure());
    assert!(!TestResult::TestSkipped.is_failure());
}

#[test]
fn test_test_result_is_success() {
    assert!(TestResult::TestPass.is_success());
    assert!(!TestResult::BuildFail(FailureReason::Unknown).is_success());
    assert!(!TestResult::TestSkipped.is_success());
}

#[test]
fn test_encoded_log_plain() {
    let log = EncodedLog::from_plain(b"test log".to_vec());
    assert_eq!(log.to_bytes(), b"test log");
    assert_eq!(log.decode().unwrap(), "test log");
}

#[test]
fn test_encoded_log_gzip() {
    let mut encoder = GzEncoder::new(Vec::new(), Compression::default());
    encoder.write_all(b"test log").unwrap();
    let compressed = encoder.finish().unwrap();

    let log = EncodedLog::from_gzip(compressed);
    assert_eq!(log.decode().unwrap(), "test log");
}

#[test]
fn test_diagnostic_code() {
    let code = DiagnosticCode::new("E0308");
    assert_eq!(code.0, "E0308");
    let parsed = code.clone();
    assert_eq!(parsed.0, "E0308");
}

#[test]
fn test_progress_data() {
    let mut progress = ProgressData::new();
    assert_eq!(progress.percentage() as f64, 0.0);

    progress.total = 100;
    progress.completed = 50;
    assert_eq!(progress.percentage() as f64, 50.0);

    progress.completed = 100;
    assert_eq!(progress.percentage() as f64, 100.0);
}

#[test]
fn progress_percentage_rounds_down() {
    let p = ProgressData { total: 3, completed: 2, failed: 0, skipped: 0 };
    assert_eq!(p.percentage(), 66);
    let p = ProgressData { total: usize::MAX, completed: usize::MAX, failed: 0, skipped: 0 };
    assert_eq!(p.percentage(), 100);
    assert_eq!(ProgressData::default(), ProgressData::new());
}

#[test]
fn encoded_log_kinds() {
    let plain = EncodedLog::from_plain_slice(b"abc");
    assert_eq!(plain, EncodedLog::Plain(b"abc".to_vec()));
    assert_eq!(plain.encoding_type(), EncodingType::Plain);
    assert_eq!(plain.encoding_type().to_str(), "plain");
    let gz = EncodedLog::from_gzip(vec![1, 2, 3]);
    assert_eq!(gz.encoding_type(), EncodingType::Gzip);
    assert_eq!(gz.encoding_type().to_str(), "gzip");
    assert_eq!(gz.to_bytes(), &[1, 2, 3]);
    // Bytes that are no gzip stream do not decode.
    assert_eq!(gz.decode(), Err(Error::Internal));
    assert_eq!(gz.clone(), gz);
}

#[test]
fn encoded_log_lossy_text() {
    let log = EncodedLog::from_plain(vec![b'a', 0xff, b'b']);
    assert_eq!(log.decode().unwrap(), "a\u{fffd}b");

    let mut encoder = GzEncoder::new(Vec::new(), Compression::default());
    encoder.write_all(&[b'x', 0xfe]).unwrap();
    let log = EncodedLog::from_gzip(encoder.finish().unwrap());
    assert_eq!(log.decode().unwrap(), "x\u{fffd}");
}
