use ntfy_run::notify::{exit_code, notification_title, should_notify, succeeded, NO_EXIT_CODE};
use ntfy_run::report::{format_post_body, render_report, status_line};
use ntfy_run::runner::{spawn_failed, CapturedOutput, CaptureError, ProcessStatus};
use std::io::{Error, ErrorKind};

fn exited(code: i32) -> Option<ProcessStatus> {
    Some(ProcessStatus { code: Some(code), text: format!("exit status: {}", code) })
}

#[test]
fn status_lines() {
    assert_eq!(status_line(&exited(0)), "exit status: 0");
    assert_eq!(status_line(&exited(127)), "exit status: 127");
    let killed = Some(ProcessStatus { code: None, text: "signal: 9 (SIGKILL)".to_string() });
    assert_eq!(status_line(&killed), "signal: 9 (SIGKILL)");
    let dumped = Some(ProcessStatus { code: None, text: "signal: 11 (SIGSEGV) (core dumped)".to_string() });
    assert_eq!(status_line(&dumped), "signal: 11 (SIGSEGV) (core dumped)");
    assert_eq!(status_line(&None), "Did not run.");
}

#[test]
fn report_with_streams() {
    let out = CapturedOutput {
        status: exited(1),
        stdout: b"hello\n\n".to_vec(),
        stderr: b"oops \t\r\n".to_vec(),
        errors: vec![],
    };
    assert_eq!(
        format_post_body(&out),
        "exit status: 1\n\n========== STDOUT ==========\nhello\n\n========== STDERR ==========\noops"
    );
}

#[test]
fn report_of_killed_process_starts_with_signal_text() {
    let out = CapturedOutput {
        status: Some(ProcessStatus { code: None, text: "signal: 9 (SIGKILL)".to_string() }),
        stdout: b"partial".to_vec(),
        stderr: vec![],
        errors: vec![],
    };
    assert_eq!(format_post_body(&out), "signal: 9 (SIGKILL)\n\n========== STDOUT ==========\npartial");
}

#[test]
fn report_of_quiet_run_is_status_only() {
    let out = CapturedOutput { status: exited(0), stdout: vec![], stderr: vec![], errors: vec![] };
    assert_eq!(format_post_body(&out), "exit status: 0");
}

#[test]
fn report_lists_errors() {
    let out = spawn_failed(Error::new(ErrorKind::NotFound, "no such file"));
    assert_eq!(format_post_body(&out), "Did not run.\n\n========== Errors ==========\nSpawn error: no such file");
    let out = CapturedOutput {
        status: exited(0),
        stdout: b"x".to_vec(),
        stderr: vec![],
        errors: vec![
            CaptureError::Stdout(Error::new(ErrorKind::Other, "a")),
            CaptureError::Stderr(Error::new(ErrorKind::Other, "b")),
            CaptureError::Wait(Error::new(ErrorKind::Other, "c")),
        ],
    };
    assert_eq!(
        format_post_body(&out),
        "exit status: 0\n\n========== Errors ==========\nError while reading stdout: a\nError while reading stderr: b\nError while waiting for process: c\n\n========== STDOUT ==========\nx"
    );
}

#[test]
fn report_decodes_invalid_utf8_lossily() {
    let r = render_report("s", &vec![], &vec![0x66, 0xff, 0x6f, b' '], &vec![]);
    assert_eq!(r, "s\n\n========== STDOUT ==========\nf\u{FFFD}o");
}

#[test]
fn report_of_whitespace_only_stream_has_empty_text() {
    let r = render_report("s", &vec!["e".to_string()], &vec![], &b" \n".to_vec());
    assert_eq!(r, "s\n\n========== Errors ==========\ne\n\n========== STDERR ==========\n");
}

#[test]
fn notify_decisions() {
    // quiet success is skipped unless always_notify
    assert!(!should_notify(false, false, true, true));
    assert!(should_notify(true, false, true, true));
    // a success with output is sent, unless only failures are wanted
    assert!(should_notify(false, false, true, false));
    assert!(!should_notify(false, true, true, false));
    // a failure is always sent
    assert!(should_notify(false, true, false, true));
    assert!(should_notify(false, false, false, true));
}

#[test]
fn success_and_exit_codes() {
    let killed = Some(ProcessStatus { code: None, text: "signal: 15 (SIGTERM)".to_string() });
    assert!(succeeded(&exited(0)));
    assert!(!succeeded(&exited(1)));
    assert!(!succeeded(&None));
    assert!(!succeeded(&killed));
    assert_eq!(exit_code(&exited(3)), 3);
    assert_eq!(exit_code(&None), NO_EXIT_CODE);
    assert_eq!(exit_code(&killed), 255);
}

#[test]
fn titles() {
    let cmd = vec!["echo".to_string(), "a b".to_string()];
    assert_eq!(notification_title(true, None, None, None, &cmd), "Success: echo 'a b'");
    assert_eq!(notification_title(false, None, None, None, &cmd), "Failure: echo 'a b'");
    assert_eq!(notification_title(true, Some("job".to_string()), None, None, &cmd), "Success: job");
    assert_eq!(
        notification_title(false, Some("job".to_string()), Some("ok".to_string()), Some("bad".to_string()), &cmd),
        "bad"
    );
    assert_eq!(notification_title(true, None, Some("ok".to_string()), None, &cmd), "ok");
}
