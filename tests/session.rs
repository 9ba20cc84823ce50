use resumable_download::downloader::LocalFiles;
use resumable_download::session::{Action, Event, Session, Stage};
use resumable_download::{DownloadError, Downloader};

fn local(final_len: Option<u64>, part_len: Option<u64>) -> Event {
    Event::Local(LocalFiles { final_len, part_len })
}

fn request_range(a: Action) -> Option<String> {
    match a {
        Action::Request { range } => range,
        other => panic!("expected a request, got {:?}", other),
    }
}

fn stream_to_end(s: &mut Session, d: &Downloader, chunks: &[u64]) {
    let mut t = 0;
    for &len in chunks {
        t += 100;
        assert!(matches!(s.step(d, Event::Chunk { len, now_ms: t }), Action::ReadChunk { report: Some(_) }));
    }
    assert!(matches!(s.step(d, Event::StreamEnd), Action::Finalize));
    assert!(matches!(s.step(d, Event::Completed), Action::Finish { report: None, result: Ok(()) }));
    assert_eq!(s.stage(), Stage::Done);
}

#[test]
fn session_cold_download() {
    let d = Downloader::new("http://h/f.bin", "f.bin", "f.bin", Some(0));
    let (mut s, a) = Session::new();
    assert!(matches!(a, Action::Inspect));
    assert_eq!(request_range(s.step(&d, local(None, None))), None);
    let a = s.step(&d, Event::Answer { status: 200, content_length: Some(1048576) });
    assert!(matches!(a, Action::LockAndOpen));
    assert_eq!(s.stage(), Stage::Locking { existing_len: 0, total: Some(1048576) });
    let a = s.step(&d, Event::Locked { acquired: true, now_ms: 0 });
    assert!(matches!(a, Action::ReadChunk { report: None }));
    match s.step(&d, Event::Chunk { len: 1048576, now_ms: 500 }) {
        Action::ReadChunk { report: Some(r) } => {
            assert_eq!(r, "Downloading f.bin: 1.00 MB / 1.00 MB (100.00%)")
        }
        other => panic!("unexpected {:?}", other),
    }
    assert_eq!(s.stage(), Stage::Streaming { downloaded: 1048576, total: Some(1048576) });
    assert!(matches!(s.step(&d, Event::StreamEnd), Action::Finalize));
    assert!(matches!(s.step(&d, Event::Completed), Action::Finish { report: None, result: Ok(()) }));
}

#[test]
fn session_resume_mid_stream() {
    let d = Downloader::new("http://h/f.bin", "f.bin", "f.bin", None);
    let (mut s, _) = Session::new();
    let range = request_range(s.step(&d, local(None, Some(500000))));
    assert_eq!(range.as_deref(), Some("bytes=500000-"));
    s.step(&d, Event::Answer { status: 206, content_length: Some(548576) });
    assert_eq!(s.stage(), Stage::Locking { existing_len: 500000, total: Some(1048576) });
    s.step(&d, Event::Locked { acquired: true, now_ms: 0 });
    stream_to_end(&mut s, &d, &[248576, 300000]);
}

#[test]
fn session_already_complete() {
    let d = Downloader::new("http://h/f.bin", "f.bin", "f.bin", None);
    let (mut s, _) = Session::new();
    match s.step(&d, local(Some(1048576), None)) {
        Action::Probe { range } => assert_eq!(range, "bytes=0-0"),
        other => panic!("unexpected {:?}", other),
    }
    let a = s.step(
        &d,
        Event::Probed {
            content_range: Some("bytes 0-0/1048576".to_owned()),
            content_length: Some("1".to_owned()),
        },
    );
    match a {
        Action::Finish { report: Some(r), result: Ok(()) } => {
            assert!(r.contains("File already complete"))
        }
        other => panic!("unexpected {:?}", other),
    }
}

#[test]
fn session_stale_pair() {
    let d = Downloader::new("http://h/f.bin", "f.bin", "f.bin", None);
    let (mut s, _) = Session::new();
    assert!(matches!(s.step(&d, local(Some(500000), Some(100000))), Action::DeletePart));
    assert!(matches!(s.step(&d, Event::Completed), Action::Probe { .. }));
    let a = s.step(
        &d,
        Event::Probed { content_range: Some("bytes 0-0/1048576".to_owned()), content_length: None },
    );
    assert!(matches!(a, Action::RenameFinalToPart));
    let range = request_range(s.step(&d, Event::Completed));
    assert_eq!(range.as_deref(), Some("bytes=500000-"));
    s.step(&d, Event::Answer { status: 206, content_length: Some(548576) });
    assert_eq!(s.stage(), Stage::Locking { existing_len: 500000, total: Some(1048576) });
}

#[test]
fn session_lock_contention() {
    let d = Downloader::new("http://h/f.bin", "f.bin", "f.bin", None);
    let (mut s, _) = Session::new();
    s.step(&d, local(None, None));
    s.step(&d, Event::Answer { status: 200, content_length: Some(10) });
    match s.step(&d, Event::Locked { acquired: false, now_ms: 0 }) {
        Action::Finish { report: Some(r), result: Ok(()) } => {
            assert_eq!(r, "Another instance is downloading \u{2014} aborting")
        }
        other => panic!("unexpected {:?}", other),
    }
}

#[test]
fn session_transient_failures() {
    let d = Downloader::new("http://h/f.bin", "f.bin", "f.bin", None);
    let (mut s, _) = Session::new();
    s.step(&d, local(None, None));
    s.step(&d, Event::Answer { status: 200, content_length: Some(10) });
    s.step(&d, Event::Locked { acquired: true, now_ms: 0 });
    match s.step(&d, Event::Failed(DownloadError::Http("reset".to_owned()))) {
        Action::Sleep { seconds } => assert!(seconds >= 2),
        other => panic!("unexpected {:?}", other),
    }
    assert!(matches!(s.step(&d, Event::Completed), Action::Inspect));
    s.step(&d, local(None, Some(4)));
    s.step(&d, Event::Answer { status: 206, content_length: Some(6) });
    s.step(&d, Event::Locked { acquired: true, now_ms: 0 });
    match s.step(&d, Event::Failed(DownloadError::Http("reset".to_owned()))) {
        Action::Sleep { seconds } => assert!(seconds >= 4),
        other => panic!("unexpected {:?}", other),
    }
    assert_eq!(s.failures(), 2);
    assert!(matches!(s.step(&d, Event::Completed), Action::Inspect));
    s.step(&d, local(None, Some(4)));
    s.step(&d, Event::Answer { status: 206, content_length: Some(6) });
    s.step(&d, Event::Locked { acquired: true, now_ms: 0 });
    stream_to_end(&mut s, &d, &[6]);
}

#[test]
fn session_gives_up_after_five_pauses() {
    let d = Downloader::new("u", "t", "p", None);
    let (mut s, _) = Session::new();
    let mut waits = Vec::new();
    loop {
        match s.step(&d, local(None, None)) {
            Action::Request { .. } => {}
            other => panic!("unexpected {:?}", other),
        }
        match s.step(&d, Event::Answer { status: 503, content_length: None }) {
            Action::Sleep { seconds } => {
                waits.push(seconds);
                assert!(matches!(s.step(&d, Event::Completed), Action::Inspect));
            }
            Action::Finish { report: None, result: Err(DownloadError::Http(m)) } => {
                assert_eq!(m, "status 503");
                break;
            }
            other => panic!("unexpected {:?}", other),
        }
    }
    assert_eq!(waits, vec![2, 4, 8, 16, 32]);
}

#[test]
fn session_unsupported_server() {
    let d = Downloader::new("u", "t", "p", None);
    let (mut s, _) = Session::new();
    s.step(&d, local(Some(3), None));
    let a = s.step(&d, Event::Probed { content_range: None, content_length: None });
    assert!(matches!(a, Action::Finish { report: None, result: Ok(()) }));
}

#[test]
fn session_range_not_satisfiable() {
    let d = Downloader::new("u", "t", "p", None);
    let (mut s, _) = Session::new();
    s.step(&d, local(None, Some(1048576)));
    let a = s.step(&d, Event::Answer { status: 416, content_length: None });
    assert!(matches!(a, Action::FinalizePartial));
    assert!(matches!(s.step(&d, Event::Completed), Action::Finish { report: None, result: Ok(()) }));
}

#[test]
fn session_out_of_order_event() {
    let d = Downloader::new("u", "t", "p", None);
    let (mut s, _) = Session::new();
    let a = s.step(&d, Event::StreamEnd);
    assert!(matches!(a, Action::Finish { result: Err(DownloadError::InvalidResponse(_)), .. }));
    assert_eq!(s.stage(), Stage::Done);
}
