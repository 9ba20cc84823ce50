use resumable_download::downloader::{
    after_probe, classify_response, contention_line, plan, probe_range, range_value, recover,
    short_title, LocalFiles, Plan, ProbeVerdict, Recovery, SpeedSampler, MAX_RETRIES,
};
use resumable_download::headers::probe_size;
use resumable_download::{DownloadError, Downloader};

#[test]
fn cold_download_with_known_length() {
    let p = plan(LocalFiles { final_len: None, part_len: None });
    assert_eq!(p, Plan::Fresh);
    assert!(range_value(0).is_none());
    let total = classify_response(200, Some(1048576), 0);
    assert_eq!(total.unwrap(), Some(1048576));
    let d = Downloader::new("http://h/f.bin", "f.bin", "f.bin", Some(0));
    assert_eq!(
        d.progress_line(1048576, Some(1048576), ""),
        "Downloading f.bin: 1.00 MB / 1.00 MB (100.00%)"
    );
}

#[test]
fn resume_mid_stream() {
    let p = plan(LocalFiles { final_len: None, part_len: Some(500000) });
    assert_eq!(p, Plan::Resume { existing_len: 500000 });
    assert_eq!(range_value(500000).unwrap(), "bytes=500000-");
    let total = classify_response(206, Some(548576), 500000);
    assert_eq!(total.unwrap(), Some(1048576));
}

#[test]
fn already_complete() {
    let p = plan(LocalFiles { final_len: Some(1048576), part_len: None });
    assert_eq!(p, Plan::Probe { discard_part: false, final_len: 1048576 });
    assert_eq!(probe_range(), "bytes=0-0");
    let size = probe_size(Some("bytes 0-0/1048576"), Some("1"));
    assert_eq!(size, Some(1048576));
    assert_eq!(after_probe(1048576, size).unwrap(), ProbeVerdict::AlreadyComplete);
    let d = Downloader::new("http://h/f.bin", "f.bin", "out/f.bin", None);
    let line = d.complete_line();
    assert!(line.contains("File already complete"));
    assert_eq!(line, "File already complete: f.bin \u{2014} skipping download");
}

#[test]
fn stale_pair() {
    let p = plan(LocalFiles { final_len: Some(500000), part_len: Some(100000) });
    assert_eq!(p, Plan::Probe { discard_part: true, final_len: 500000 });
    let size = probe_size(Some("bytes 0-0/1048576"), None);
    assert_eq!(
        after_probe(500000, size).unwrap(),
        ProbeVerdict::ResumeFromFinal { existing_len: 500000 }
    );
    assert_eq!(range_value(500000).unwrap(), "bytes=500000-");
    let total = classify_response(206, Some(548576), 500000);
    assert_eq!(total.unwrap(), Some(1048576));
}

#[test]
fn concurrent_duplicate() {
    let a = Downloader::new("http://h/f.bin", "f.bin", "dir/f.bin", None);
    let b = Downloader::new("http://h/f.bin", "other", "dir/f.bin", Some(1));
    assert_eq!(a.lock_path(), b.lock_path());
    assert_eq!(contention_line(), "Another instance is downloading \u{2014} aborting");
}

#[test]
fn transient_failures_back_off() {
    match recover(0, DownloadError::Http("reset".to_string())) {
        Recovery::Wait { attempt, seconds } => {
            assert_eq!(attempt, 1);
            assert!(seconds >= 2);
            assert_eq!(seconds, 2);
        }
        other => panic!("unexpected {:?}", other),
    }
    match recover(1, DownloadError::Io("disk".to_string())) {
        Recovery::Wait { attempt, seconds } => {
            assert_eq!(attempt, 2);
            assert!(seconds >= 4);
            assert_eq!(seconds, 4);
        }
        other => panic!("unexpected {:?}", other),
    }
}

#[test]
fn backoff_sequence_and_give_up() {
    let mut waits = Vec::new();
    for f in 0..MAX_RETRIES {
        match recover(f, DownloadError::InvalidRange) {
            Recovery::Wait { seconds, .. } => waits.push(seconds),
            other => panic!("unexpected {:?}", other),
        }
    }
    assert_eq!(waits, vec![2, 4, 8, 16, 32]);
    match recover(MAX_RETRIES, DownloadError::Http("x".to_string())) {
        Recovery::GiveUp(DownloadError::Http(m)) => assert_eq!(m, "x"),
        other => panic!("unexpected {:?}", other),
    }
}

#[test]
fn range_not_satisfiable_finalizes() {
    let r = classify_response(416, None, 1048576);
    assert!(matches!(r, Err(DownloadError::RangeNotSatisfiable)));
    assert!(matches!(
        recover(0, DownloadError::RangeNotSatisfiable),
        Recovery::FinalizePartial
    ));
}

#[test]
fn unsupported_server_finishes() {
    let size = probe_size(Some("bytes 0-0/*"), Some("abc"));
    assert_eq!(size, None);
    let r = after_probe(10, size);
    assert!(matches!(r, Err(DownloadError::UnsupportedServer)));
    assert!(matches!(recover(3, DownloadError::UnsupportedServer), Recovery::Finish));
}

#[test]
fn failure_statuses() {
    match classify_response(404, Some(5), 0) {
        Err(DownloadError::Http(m)) => assert_eq!(m, "status 404"),
        other => panic!("unexpected {:?}", other),
    }
    assert!(matches!(classify_response(500, None, 0), Err(DownloadError::Http(_))));
    assert_eq!(classify_response(200, None, 7).unwrap(), None);
    assert_eq!(classify_response(206, Some(u64::MAX), 1).unwrap(), None);
}

#[test]
fn probe_length_only() {
    assert_eq!(probe_size(None, Some("1048576")), Some(1048576));
    assert_eq!(probe_size(None, Some("0")), Some(0));
    assert_eq!(probe_size(None, Some("18446744073709551615")), Some(u64::MAX));
    assert_eq!(probe_size(None, Some("18446744073709551616")), None);
    assert_eq!(probe_size(None, Some("")), None);
    assert_eq!(probe_size(None, Some("12a")), None);
}

#[test]
fn probe_range_total_wins() {
    assert_eq!(probe_size(Some("bytes 0-0/2048"), Some("1")), Some(2048));
    assert_eq!(probe_size(Some("bytes 0-0/*"), Some("1")), Some(1));
    assert_eq!(probe_size(Some("garbage"), Some("77")), Some(77));
    assert_eq!(probe_size(None, None), None);
}

#[test]
fn title_unchanged_up_to_thirty() {
    let t = "abcdefghijabcdefghijabcdefghij";
    assert_eq!(short_title(t), t);
    assert_eq!(short_title(""), "");
    let colored = "\u{1b}[31mred\u{1b}[0m";
    assert_eq!(short_title(colored), colored);
}

#[test]
fn long_title_gets_ellipsis() {
    let t = "abcdefghijabcdefghijabcdefghijX";
    let s = short_title(t);
    assert_eq!(s, "abcdefghijabcdefghijabcdefghi\u{2026}");
    assert_eq!(s.chars().count(), 30);
}

#[test]
fn progress_line_formats() {
    let d = Downloader::new("u", "file", "file", None);
    assert_eq!(
        d.progress_line(524288, Some(1048576), " | 1.50 MB/s"),
        "Downloading file: 0.50 MB / 1.00 MB (50.00%) | 1.50 MB/s"
    );
    assert_eq!(d.progress_line(3 * 1048576, None, ""), "Downloaded file: 3.00 MB");
    assert_eq!(d.progress_line(1, Some(3), ""), "Downloading file: 0.00 MB / 0.00 MB (33.33%)");
    assert_eq!(d.progress_line(0, Some(0), ""), "Downloaded file: 0.00 MB");
}

#[test]
fn speed_sampling_window() {
    let mut s = SpeedSampler::new(1000);
    assert_eq!(s.suffix(), "");
    s.on_chunk(1048576, 1500);
    assert_eq!(s.suffix(), "");
    s.on_chunk(1048576, 2000);
    assert_eq!(s.suffix(), " | 2.00 MB/s");
    s.on_chunk(524288, 3000);
    assert_eq!(s.suffix(), " | 0.50 MB/s");
}

#[test]
fn side_file_names() {
    let d = Downloader::new("u", "t", "dl/100MB.bin", None);
    assert_eq!(d.temp_path(), "dl/100MB.bin.part");
    let lock = d.lock_path();
    assert!(lock.starts_with("dl/.100MB.bin."));
    assert!(lock.ends_with(".lock"));
    let hex = &lock["dl/.100MB.bin.".len()..lock.len() - ".lock".len()];
    assert_eq!(hex.len(), 32);
    let bare = Downloader::new("u", "t", "abc", None);
    assert_eq!(bare.lock_path(), ".abc.900150983cd24fb0d6963f7d28e17f72.lock");
    assert_eq!(bare.url(), "u");
    assert_eq!(bare.title(), "t");
    assert_eq!(bare.output_path(), "abc");
    assert_eq!(bare.track(), None);
}

#[test]
fn error_messages() {
    assert_eq!(DownloadError::Http("boom".to_string()).message(), "HTTP error: boom");
    assert_eq!(DownloadError::Io("disk".to_string()).message(), "IO error: disk");
    assert!(DownloadError::Http(String::new()).is_retryable());
    assert!(!DownloadError::RangeNotSatisfiable.is_retryable());
    assert!(!DownloadError::UnsupportedServer.is_retryable());
}
