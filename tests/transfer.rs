use magic_installer::error::InstallError;
use magic_installer::transfer::{parse_content_length, run_transfer, DownloadStatus, ReadOutcome, Transfer};

#[test]
fn content_length_values() {
    assert_eq!(parse_content_length("1234"), Some(1234));
    assert_eq!(parse_content_length("0"), Some(0));
    assert_eq!(parse_content_length("007"), Some(7));
    assert_eq!(parse_content_length("18446744073709551615"), Some(u64::MAX));
}

#[test]
fn content_length_rejects() {
    assert_eq!(parse_content_length(""), None);
    assert_eq!(parse_content_length("12a"), None);
    assert_eq!(parse_content_length("-5"), None);
    assert_eq!(parse_content_length(" 5"), None);
    assert_eq!(parse_content_length("18446744073709551616"), None);
    assert_eq!(parse_content_length("99999999999999999999x"), None);
}

#[test]
fn missing_length_header_is_protocol_error() {
    assert!(matches!(Transfer::start(None), Err(InstallError::Protocol(_))));
    assert!(matches!(Transfer::start(Some("abc")), Err(InstallError::Protocol(_))));
    let r = run_transfer(None, vec![ReadOutcome::Read(10), ReadOutcome::Read(0)]);
    assert_eq!(r.len(), 1);
    assert!(matches!(r[0], DownloadStatus::Error(InstallError::Protocol(_))));
}

#[test]
fn fixed_size_payload_ends_with_one_completion() {
    let reads = vec![ReadOutcome::Read(4096), ReadOutcome::Read(4096), ReadOutcome::Read(1808), ReadOutcome::Read(0)];
    let r = run_transfer(Some("10000"), reads);
    assert_eq!(
        r,
        vec![
            DownloadStatus::Downloading { written: 4096, total: 10000 },
            DownloadStatus::Downloading { written: 8192, total: 10000 },
            DownloadStatus::Downloading { written: 10000, total: 10000 },
            DownloadStatus::Downloaded,
        ]
    );
    let mut last = 0;
    for s in &r[..r.len() - 1] {
        match s {
            DownloadStatus::Downloading { written, .. } => {
                assert!(*written >= last);
                last = *written;
            }
            _ => panic!("final report before the end"),
        }
    }
    assert_eq!(r.iter().filter(|s| matches!(s, DownloadStatus::Downloaded)).count(), 1);
}

#[test]
fn reads_after_the_end_are_not_taken() {
    let reads = vec![ReadOutcome::Read(5), ReadOutcome::Read(0), ReadOutcome::Read(7)];
    let r = run_transfer(Some("5"), reads);
    assert_eq!(r, vec![DownloadStatus::Downloading { written: 5, total: 5 }, DownloadStatus::Downloaded]);
}

#[test]
fn script_running_out_ends_the_body() {
    let r = run_transfer(Some("3"), vec![ReadOutcome::Read(3)]);
    assert_eq!(r, vec![DownloadStatus::Downloading { written: 3, total: 3 }, DownloadStatus::Downloaded]);
}

#[test]
fn failure_mid_stream_ends_with_one_failure() {
    let err = InstallError::Network(String::from("connection reset"));
    let reads = vec![
        ReadOutcome::Read(4096),
        ReadOutcome::Failed(err.clone()),
        ReadOutcome::Read(4096),
        ReadOutcome::Read(0),
    ];
    let r = run_transfer(Some("10000"), reads);
    assert_eq!(r, vec![DownloadStatus::Downloading { written: 4096, total: 10000 }, DownloadStatus::Error(err)]);
}

#[test]
fn failure_at_first_read() {
    let err = InstallError::Network(String::from("timed out"));
    let r = run_transfer(Some("10"), vec![ReadOutcome::Failed(err.clone())]);
    assert_eq!(r, vec![DownloadStatus::Error(err)]);
}

#[test]
fn undercounted_length_goes_past_total() {
    let mut t = Transfer::start(Some("4")).unwrap();
    assert_eq!(t.on_read(ReadOutcome::Read(6)), DownloadStatus::Downloading { written: 6, total: 4 });
    assert!(!t.finished);
    assert_eq!(t.on_read(ReadOutcome::Read(0)), DownloadStatus::Downloaded);
    assert!(t.finished);
}

#[test]
fn byte_count_is_held_at_largest_value() {
    let mut t = Transfer { written: u64::MAX - 1, total: 10, finished: false };
    assert_eq!(t.on_read(ReadOutcome::Read(5)), DownloadStatus::Downloading { written: u64::MAX, total: 10 });
}
