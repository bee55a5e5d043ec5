use needjs::write_stream::{CloseStep, FsWriteStream, WSFile, WriteStep};

fn written(step: WriteStep) -> Vec<u8> {
    match step {
        WriteStep::Write(b) => b,
        WriteStep::Requeue => panic!("expected a write"),
    }
}

#[test]
fn new_stream_waits_for_its_file() {
    let s: FsWriteStream<u32> = FsWriteStream::make();
    assert_eq!(s.file(), WSFile::Waiting);
    assert_eq!(s.pending_writes(), 0);
}

#[test]
fn write_before_open_is_requeued() {
    let mut s: FsWriteStream<u32> = FsWriteStream::make();
    s.write(b"x".to_vec());
    assert!(matches!(s.exec_write_str(), WriteStep::Requeue));
    assert_eq!(s.pending_writes(), 1);
}

#[test]
fn writes_flush_in_enqueue_order() {
    let mut s: FsWriteStream<u32> = FsWriteStream::make();
    s.write(b"one".to_vec());
    s.write(b"two".to_vec());
    s.exec_create_file();
    assert_eq!(s.file(), WSFile::Open);
    s.write(b"three".to_vec());
    let mut out = Vec::new();
    while s.pending_writes() > 0 {
        out.extend(written(s.exec_write_str()));
    }
    assert_eq!(out, b"onetwothree".to_vec());
}

#[test]
fn close_waits_for_pending_writes() {
    let mut s: FsWriteStream<u32> = FsWriteStream::make();
    s.exec_create_file();
    s.write(b"x".to_vec());
    assert!(matches!(s.exec_close(), CloseStep::Requeue));
    assert_eq!(s.file(), WSFile::Open);
    assert_eq!(written(s.exec_write_str()), b"x".to_vec());
    assert!(matches!(s.exec_close(), CloseStep::Finish(_)));
    assert_eq!(s.file(), WSFile::Closed);
}

#[test]
fn close_before_open_is_requeued() {
    let mut s: FsWriteStream<u32> = FsWriteStream::make();
    assert!(matches!(s.exec_close(), CloseStep::Requeue));
    assert_eq!(s.file(), WSFile::Waiting);
}

#[test]
fn close_calls_finish_then_close() {
    let mut s: FsWriteStream<u32> = FsWriteStream::make();
    s.on("close", 2);
    s.on("finish", 1);
    s.on("drain", 9);
    s.exec_create_file();
    match s.exec_close() {
        CloseStep::Finish(cbs) => assert_eq!(cbs, vec![1, 2]),
        _ => panic!("expected the stream to close"),
    }
}

#[test]
fn later_callback_replaces_earlier() {
    let mut s: FsWriteStream<u32> = FsWriteStream::make();
    s.on("finish", 1);
    s.on("finish", 3);
    s.exec_create_file();
    match s.exec_close() {
        CloseStep::Finish(cbs) => assert_eq!(cbs, vec![3]),
        _ => panic!("expected the stream to close"),
    }
}

#[test]
fn second_close_is_noop() {
    let mut s: FsWriteStream<u32> = FsWriteStream::make();
    s.on("finish", 1);
    s.exec_create_file();
    assert!(matches!(s.exec_close(), CloseStep::Finish(_)));
    assert!(matches!(s.exec_close(), CloseStep::AlreadyClosed));
    assert_eq!(s.file(), WSFile::Closed);
}

#[test]
fn empty_write_is_accepted() {
    let mut s: FsWriteStream<u32> = FsWriteStream::make();
    s.exec_create_file();
    s.write(Vec::new());
    assert_eq!(s.pending_writes(), 1);
    assert_eq!(written(s.exec_write_str()), Vec::<u8>::new());
    assert_eq!(s.pending_writes(), 0);
}

// fs.createWriteStream("out"); s.write("x"); s.write("y");
// s.on("finish", ...); s.close(): the file holds "xy" and finish fires once.
#[test]
fn write_stream_scenario() {
    let mut s: FsWriteStream<&str> = FsWriteStream::make();
    s.write("x".as_bytes().to_vec());
    s.write("y".as_bytes().to_vec());
    s.on("finish", "f");
    // the close action runs before the file exists and is enqueued again
    assert!(matches!(s.exec_close(), CloseStep::Requeue));
    assert!(matches!(s.exec_write_str(), WriteStep::Requeue));
    s.exec_create_file();
    let mut file = Vec::new();
    file.extend(written(s.exec_write_str()));
    assert!(matches!(s.exec_close(), CloseStep::Requeue));
    file.extend(written(s.exec_write_str()));
    let fired = match s.exec_close() {
        CloseStep::Finish(cbs) => cbs,
        _ => panic!("expected the stream to close"),
    };
    assert_eq!(file, b"xy".to_vec());
    assert_eq!(fired, vec!["f"]);
    assert!(matches!(s.exec_close(), CloseStep::AlreadyClosed));
}

#[test]
fn open_stream_drains_in_enqueue_order() {
    let mut s: FsWriteStream<u32> = FsWriteStream::make();
    s.exec_create_file();
    let payloads: Vec<&[u8]> = vec![b"ab", b"", b"c", b"def"];
    let mut file = Vec::new();
    for p in &payloads {
        s.write(p.to_vec());
    }
    s.write(b"g".to_vec());
    file.extend(written(s.exec_write_str()));
    for _ in 0..payloads.len() {
        file.extend(written(s.exec_write_str()));
    }
    assert_eq!(s.pending_writes(), 0);
    assert_eq!(s.file(), WSFile::Open);
    assert_eq!(file, b"abcdefg".to_vec());
}
