use easytier_pro::download::{DownloadProgress, ProgressEvent};

#[test]
fn progress_counts_bytes_and_percentage() {
    let mut p = DownloadProgress::new(Some(200));
    assert_eq!(p.downloaded, 0);
    assert_eq!(p.total, 200);
    assert!(p.can_record(50));
    assert_eq!(p.record_chunk(50), ProgressEvent { downloaded: 50, total: 200, percentage: 25 });
    assert_eq!(p.record_chunk(49), ProgressEvent { downloaded: 99, total: 200, percentage: 49 });
    assert_eq!(p.record_chunk(101), ProgressEvent { downloaded: 200, total: 200, percentage: 100 });
    assert_eq!(p.finish(), ProgressEvent { downloaded: 200, total: 200, percentage: 100 });
}

#[test]
fn progress_without_known_length() {
    let mut p = DownloadProgress::new(None);
    assert_eq!(p.total, 0);
    assert_eq!(p.record_chunk(1000), ProgressEvent { downloaded: 1000, total: 0, percentage: 0 });
    assert_eq!(p.finish().percentage, 100);
}

#[test]
fn progress_beyond_announced_length_wraps_like_a_u8() {
    // 300 bytes of an announced 100: 300 percent, kept to eight bits.
    let mut p = DownloadProgress::new(Some(100));
    assert_eq!(p.record_chunk(300).percentage, (300u32 % 256) as u8);
}

#[test]
fn progress_refuses_overflowing_counts() {
    let p = DownloadProgress { downloaded: u64::MAX - 1, total: 0 };
    assert!(p.can_record(1));
    assert!(!p.can_record(2));
    let q = DownloadProgress { downloaded: 0, total: 10 };
    assert!(q.can_record(u64::MAX / 100));
    assert!(!q.can_record(u64::MAX / 100 + 1));
}
