use ntfy_run::runner::{spawn_failed, Capture, CaptureError, CaptureEvent, ProcessStatus};
use ntfy_run::tap_stream::{PumpEvent, PumpRequest, ReadOrWrite, TapStream, BUF_SIZE};
use std::io::{Error, ErrorKind};

fn exited(code: i32) -> ProcessStatus {
    ProcessStatus { code: Some(code), text: format!("exit status: {}", code) }
}

/// Drives one stream of a capture: feeds each chunk as a read, then writes
/// back what the pump asks for, accepting at most `accept` bytes per write,
/// and returns every byte the pump handed out for writing.
fn feed(capture: &mut Capture, stdout: bool, chunks: &[&[u8]], accept: usize) -> Vec<u8> {
    let mut echoed = Vec::new();
    let request = |c: &Capture| if stdout { c.stdout_request() } else { c.stderr_request() };
    let event = |e: Result<PumpEvent, Error>| if stdout { CaptureEvent::Stdout(e) } else { CaptureEvent::Stderr(e) };
    for chunk in chunks.iter().chain(std::iter::once(&&b""[..])) {
        match request(capture) {
            PumpRequest::Read(n) => assert_eq!(n, BUF_SIZE),
            _ => panic!("expected a read request"),
        }
        capture.handle(event(Ok(PumpEvent::Filled(chunk.to_vec()))));
        loop {
            match request(capture) {
                PumpRequest::Write(bytes) => {
                    let n = accept.min(bytes.len());
                    echoed.extend_from_slice(&bytes[..n]);
                    capture.handle(event(Ok(PumpEvent::Drained(n))));
                }
                _ => break,
            }
        }
    }
    assert!(matches!(request(capture), PumpRequest::Idle));
    echoed
}

#[test]
fn printf_foo_is_captured() {
    let mut c = Capture::new();
    let echoed = feed(&mut c, true, &[b"foo"], usize::MAX);
    feed(&mut c, false, &[], usize::MAX);
    assert!(c.awaiting_exit());
    assert!(!c.is_finished());
    c.handle(CaptureEvent::Exit(Ok(exited(0))));
    assert!(c.is_finished());
    let out = c.finish();
    assert_eq!(out.stdout, b"foo".to_vec());
    assert_eq!(echoed, b"foo".to_vec());
    assert!(out.stderr.is_empty());
    assert_eq!(out.status, Some(exited(0)));
    assert_eq!(out.status.as_ref().unwrap().text, "exit status: 0");
    assert!(out.status.as_ref().unwrap().success());
    assert!(out.errors.is_empty());
    assert!(!out.is_empty());
}

#[test]
fn missing_binary_gives_one_spawn_error() {
    let out = spawn_failed(Error::new(ErrorKind::NotFound, "/no/such/binary"));
    assert_eq!(out.status, None);
    assert!(out.stdout.is_empty());
    assert!(out.stderr.is_empty());
    assert_eq!(out.errors.len(), 1);
    assert!(matches!(out.errors[0], CaptureError::Spawn(_)));
    assert!(!out.is_empty());
}

#[test]
fn stderr_only_failure() {
    let mut c = Capture::new();
    feed(&mut c, true, &[], usize::MAX);
    let echoed = feed(&mut c, false, &[b"bad ", b"thing\n"], 3);
    c.handle(CaptureEvent::Exit(Ok(exited(2))));
    let out = c.finish();
    assert!(out.stdout.is_empty());
    assert_eq!(out.stderr, b"bad thing\n".to_vec());
    assert_eq!(echoed, out.stderr);
    assert!(!out.status.as_ref().unwrap().success());
    assert!(out.errors.is_empty());
}

#[test]
fn quiet_success_is_empty() {
    let mut c = Capture::new();
    c.handle(CaptureEvent::Exit(Ok(exited(0))));
    feed(&mut c, false, &[], usize::MAX);
    feed(&mut c, true, &[], usize::MAX);
    let out = c.finish();
    assert!(out.is_empty());
    assert!(out.status.as_ref().unwrap().success());
}

#[test]
fn large_streams_are_captured_whole() {
    let data: Vec<u8> = (0..40000u32).map(|i| (i % 251) as u8).collect();
    let err: Vec<u8> = (0..7u8).collect();
    let chunks: Vec<&[u8]> = data.chunks(BUF_SIZE).collect();
    let mut c = Capture::new();
    let echoed_out = feed(&mut c, true, &chunks, 1000);
    let echoed_err = feed(&mut c, false, &[&err], usize::MAX);
    c.handle(CaptureEvent::Exit(Ok(exited(0))));
    let out = c.finish();
    assert_eq!(out.stdout.len(), 40000);
    assert_eq!(out.stdout, data);
    assert_eq!(out.stderr.len(), 7);
    assert_eq!(out.stderr, err);
    assert_eq!(echoed_out, data);
    assert_eq!(echoed_err, err);
    assert!(out.errors.is_empty());
}

#[test]
fn chunking_does_not_change_the_capture() {
    let mut a = Capture::new();
    feed(&mut a, true, &[b"hello world"], usize::MAX);
    feed(&mut a, false, &[b"x"], usize::MAX);
    a.handle(CaptureEvent::Exit(Ok(exited(0))));
    let mut b = Capture::new();
    b.handle(CaptureEvent::Exit(Ok(exited(0))));
    feed(&mut b, false, &[b"x"], 1);
    feed(&mut b, true, &[b"hel", b"lo", b" world"], 2);
    let (a, b) = (a.finish(), b.finish());
    assert_eq!(a.stdout, b.stdout);
    assert_eq!(a.stderr, b.stderr);
}

#[test]
fn stream_error_ends_that_stream_only() {
    let mut c = Capture::new();
    c.handle(CaptureEvent::Stdout(Ok(PumpEvent::Filled(b"ab".to_vec()))));
    c.handle(CaptureEvent::Stdout(Err(Error::new(ErrorKind::BrokenPipe, "closed"))));
    assert!(matches!(c.stdout_request(), PumpRequest::Idle));
    c.handle(CaptureEvent::Stderr(Err(Error::new(ErrorKind::Other, "gone"))));
    assert!(matches!(c.stderr_request(), PumpRequest::Idle));
    assert!(!c.is_finished());
    c.handle(CaptureEvent::Exit(Ok(exited(0))));
    assert!(c.is_finished());
    let out = c.finish();
    assert_eq!(out.stdout, b"ab".to_vec());
    assert_eq!(out.errors.len(), 2);
    assert!(matches!(out.errors[0], CaptureError::Stdout(_)));
    assert!(matches!(out.errors[1], CaptureError::Stderr(_)));
}

#[test]
fn wait_error_leaves_no_status() {
    let mut c = Capture::new();
    feed(&mut c, true, &[b"out"], usize::MAX);
    feed(&mut c, false, &[], usize::MAX);
    c.handle(CaptureEvent::Exit(Err(Error::new(ErrorKind::Other, "wait"))));
    assert!(!c.awaiting_exit());
    let out = c.finish();
    assert_eq!(out.status, None);
    assert_eq!(out.stdout, b"out".to_vec());
    assert_eq!(out.errors.len(), 1);
    assert!(matches!(out.errors[0], CaptureError::Wait(_)));
}

#[test]
fn pump_alternates_reads_and_writes() {
    let mut p = TapStream::new();
    assert!(matches!(p.request(), PumpRequest::Read(BUF_SIZE)));
    match p.step(Ok(PumpEvent::Filled(b"abcd".to_vec()))) {
        Ok(ReadOrWrite::Read(chunk)) => assert_eq!(chunk, b"abcd".to_vec()),
        _ => panic!("expected a chunk"),
    }
    match p.request() {
        PumpRequest::Write(bytes) => assert_eq!(bytes, b"abcd".to_vec()),
        _ => panic!("expected a write request"),
    }
    assert!(matches!(p.step(Ok(PumpEvent::Drained(1))), Ok(ReadOrWrite::Written)));
    match p.request() {
        PumpRequest::Write(bytes) => assert_eq!(bytes, b"bcd".to_vec()),
        _ => panic!("expected a write request"),
    }
    assert!(matches!(p.step(Ok(PumpEvent::Drained(3))), Ok(ReadOrWrite::Written)));
    assert!(matches!(p.request(), PumpRequest::Read(_)));
    assert!(matches!(p.step(Ok(PumpEvent::Filled(vec![]))), Ok(ReadOrWrite::EOF)));
    assert!(p.is_done());
    assert!(matches!(p.request(), PumpRequest::Idle));
}

#[test]
fn pump_hands_back_errors_and_stops() {
    let mut p = TapStream::new();
    let r = p.step(Err(Error::new(ErrorKind::Interrupted, "x")));
    match r {
        Err(e) => assert_eq!(e.kind(), ErrorKind::Interrupted),
        Ok(_) => panic!("expected the error back"),
    }
    assert!(p.is_done());
    assert!(matches!(p.request(), PumpRequest::Idle));
}
