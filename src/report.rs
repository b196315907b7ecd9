use vstd::prelude::*;
use crate::quote::{joined, join_with};
use crate::runner::{CaptureError, CapturedOutput, ProcessStatus};

verus! {

/// What `String::from_utf8_lossy` makes of a byte sequence.
pub uninterp spec fn utf8_lossy(b: Seq<u8>) -> Seq<char>;

/// Relies on `String::from_utf8_lossy`: the text decoded from `b`, with each
/// invalid sequence replaced; no bytes give no text.
#[verifier::external_body]
fn decode_lossy(b: &[u8]) -> (r: String)
    ensures
        r@ == utf8_lossy(b@),
        b@.len() == 0 ==> r@.len() == 0,
{
    String::from_utf8_lossy(b).into_owned()
}

/// Relies on the `Display` impl of `std::io::Error`: the error's message,
/// which depends on the platform.
#[verifier::external_body]
fn io_error_text(e: &std::io::Error) -> (r: String)
{
    e.to_string()
}

/// Space, tab, line feed, form feed and carriage return.
pub open spec fn is_ascii_space(b: u8) -> bool {
    b == 0x20u8 || b == 0x09u8 || b == 0x0au8 || b == 0x0cu8 || b == 0x0du8
}

/// `b` without its trailing ASCII whitespace.
pub open spec fn trimmed_end(b: Seq<u8>) -> Seq<u8>
    decreases b.len(),
{
    if b.len() > 0 && is_ascii_space(b.last()) {
        trimmed_end(b.drop_last())
    } else {
        b
    }
}

/// The fragments that introduce and hold one captured stream; none for an
/// empty stream.
pub open spec fn stream_section(title: Seq<char>, bytes: Seq<u8>) -> Seq<Seq<char>> {
    if bytes.len() == 0 {
        Seq::empty()
    } else {
        seq![Seq::empty(), title, utf8_lossy(trimmed_end(bytes))]
    }
}

/// The lines of a report: the status line; then, if there are errors, a
/// blank line, a heading and one line per error; then a section for each
/// non-empty stream, its text with trailing whitespace removed.
pub open spec fn report_fragments(
    status_line: Seq<char>,
    error_lines: Seq<Seq<char>>,
    stdout: Seq<u8>,
    stderr: Seq<u8>,
) -> Seq<Seq<char>> {
    seq![status_line]
        + (if error_lines.len() == 0 {
        Seq::empty()
    } else {
        seq![Seq::empty(), "========== Errors =========="@] + error_lines
    }) + stream_section("========== STDOUT =========="@, stdout) + stream_section(
        "========== STDERR =========="@,
        stderr,
    )
}

/// The body of the notification: the report's lines joined by line feeds.
pub open spec fn report_text(
    status_line: Seq<char>,
    error_lines: Seq<Seq<char>>,
    stdout: Seq<u8>,
    stderr: Seq<u8>,
) -> Seq<char> {
    joined(report_fragments(status_line, error_lines, stdout, stderr), seq!['\n'])
}

/// The number of bytes of `b` left once trailing ASCII whitespace is
/// removed.
fn trimmed_end_len(b: &[u8]) -> (r: usize)
    ensures
        r <= b@.len(),
        b@.subrange(0, r as int) == trimmed_end(b@),
{
    let mut n: usize = b.len();
    assert(b@.subrange(0, n as int) =~= b@);
    while n > 0 && (b[n - 1] == 0x20u8 || b[n - 1] == 0x09u8 || b[n - 1] == 0x0au8 || b[n - 1]
        == 0x0cu8 || b[n - 1] == 0x0du8)
        invariant
            n <= b@.len(),
            trimmed_end(b@) == trimmed_end(b@.subrange(0, n as int)),
        decreases n,
    {
        assert(b@.subrange(0, n as int).drop_last() =~= b@.subrange(0, n as int - 1));
        n = n - 1;
    }
    n
}

/// Appends the section of one stream to `fragments`.
fn push_stream_section(fragments: &mut Vec<String>, title: &str, bytes: &Vec<u8>)
    ensures
        final(fragments)@.map_values(|s: String| s@) == old(fragments)@.map_values(|s: String| s@)
            + stream_section(title@, bytes@),
{
    if bytes.len() > 0 {
        let n = trimmed_end_len(bytes.as_slice());
        let mut kept: Vec<u8> = Vec::new();
        let mut i: usize = 0;
        while i < n
            invariant
                n <= bytes@.len(),
                i <= n,
                kept@ == bytes@.subrange(0, i as int),
            decreases n - i,
        {
            kept.push(bytes[i]);
            i = i + 1;
            assert(kept@ =~= bytes@.subrange(0, i as int));
        }
        fragments.push(String::new());
        fragments.push(title.to_owned());
        fragments.push(decode_lossy(kept.as_slice()));
        assert(final(fragments)@.map_values(|s: String| s@) =~= old(fragments)@.map_values(|s: String| s@)
            + stream_section(title@, bytes@));
    } else {
        assert(old(fragments)@.map_values(|s: String| s@) =~= old(fragments)@.map_values(|s: String| s@)
            + stream_section(title@, bytes@));
    }
}

/// Builds the body of the notification from the status line, one line per
/// error and the captured streams.
pub fn render_report(status_line: &str, error_lines: &Vec<String>, stdout: &Vec<u8>, stderr: &Vec<u8>) -> (r: String)
    ensures
        r@ == report_text(status_line@, error_lines@.map_values(|s: String| s@), stdout@, stderr@),
{
    let ghost errs = error_lines@.map_values(|s: String| s@);
    let mut fragments: Vec<String> = Vec::new();
    fragments.push(status_line.to_owned());
    if error_lines.len() > 0 {
        fragments.push(String::new());
        fragments.push(String::from_str("========== Errors =========="));
        let mut i: usize = 0;
        let ghost base = fragments@.map_values(|s: String| s@);
        while i < error_lines.len()
            invariant
                i <= error_lines@.len(),
                errs == error_lines@.map_values(|s: String| s@),
                fragments@.map_values(|s: String| s@) == base + errs.subrange(0, i as int),
            decreases error_lines@.len() - i,
        {
            let line = error_lines[i].clone();
            assert(line@ == errs[i as int]);
            let ghost prev = fragments@;
            fragments.push(line);
            assert(fragments@.map_values(|s: String| s@) =~= prev.map_values(|s: String| s@).push(line@));
            assert(errs.subrange(0, i + 1) =~= errs.subrange(0, i as int).push(errs[i as int]));
            i = i + 1;
        }
        assert(errs.subrange(0, i as int) =~= errs);
    }
    let ghost head = fragments@.map_values(|s: String| s@);
    assert(head =~= seq![status_line@] + (if errs.len() == 0 {
        Seq::<Seq<char>>::empty()
    } else {
        seq![Seq::<char>::empty(), "========== Errors =========="@] + errs
    }));
    push_stream_section(&mut fragments, "========== STDOUT ==========", stdout);
    push_stream_section(&mut fragments, "========== STDERR ==========", stderr);
    assert(fragments@.map_values(|s: String| s@) =~= report_fragments(status_line@, errs, stdout@, stderr@));
    let r = join_with(&fragments, "\n");
    proof {
        reveal_strlit("\n");
        assert("\n"@ =~= seq!['\n']);
    }
    r
}

/// The first line of a report: the description of how the process ended,
/// or that it did not run.
pub open spec fn status_text(status: Option<ProcessStatus>) -> Seq<char> {
    match status {
        None => "Did not run."@,
        Some(s) => s.text@,
    }
}

/// Describes how the process ended, or that it did not run.
pub fn status_line(status: &Option<ProcessStatus>) -> (r: String)
    ensures
        r@ == status_text(*status),
{
    match status {
        None => String::from_str("Did not run."),
        Some(s) => s.text.clone(),
    }
}

/// The words that introduce an error of each kind in a report.
pub open spec fn error_prefix(e: CaptureError) -> Seq<char> {
    match e {
        CaptureError::Spawn(_) => "Spawn error: "@,
        CaptureError::Stdout(_) => "Error while reading stdout: "@,
        CaptureError::Stderr(_) => "Error while reading stderr: "@,
        CaptureError::Wait(_) => "Error while waiting for process: "@,
    }
}

/// The lines of a report for the errors, each error's words followed by the
/// message of the same position.
pub open spec fn error_lines_of(errors: Seq<CaptureError>, messages: Seq<Seq<char>>) -> Seq<Seq<char>> {
    Seq::new(errors.len(), |i: int| error_prefix(errors[i]) + messages[i])
}

/// One line of a report for one error: the words for its kind, then the
/// system's message, returned apart.
fn error_line(error: &CaptureError) -> (r: (String, Ghost<Seq<char>>))
    ensures
        r.0@ == error_prefix(*error) + r.1@,
{
    let (mut line, e) = match error {
        CaptureError::Spawn(e) => (String::from_str("Spawn error: "), e),
        CaptureError::Stdout(e) => (String::from_str("Error while reading stdout: "), e),
        CaptureError::Stderr(e) => (String::from_str("Error while reading stderr: "), e),
        CaptureError::Wait(e) => (String::from_str("Error while waiting for process: "), e),
    };
    let text = io_error_text(e);
    line.append(text.as_str());
    (line, Ghost(text@))
}

/// The body of the notification for a run: its status line, a line for each
/// error (the words for its kind followed by the system's message), and the
/// text of each non-empty stream.
pub fn format_post_body(output: &CapturedOutput) -> (r: String)
    ensures
        exists|messages: Seq<Seq<char>>|
            messages.len() == output.errors@.len() && r@ == report_text(
                status_text(output.status),
                #[trigger] error_lines_of(output.errors@, messages),
                output.stdout@,
                output.stderr@,
            ),
{
    let status = status_line(&output.status);
    let mut lines: Vec<String> = Vec::new();
    let ghost mut messages: Seq<Seq<char>> = Seq::empty();
    let mut i: usize = 0;
    while i < output.errors.len()
        invariant
            i <= output.errors@.len(),
            lines@.len() == i,
            messages.len() == i,
            forall|j: int| 0 <= j < i ==> #[trigger] lines@[j]@ == error_prefix(output.errors@[j]) + messages[j],
        decreases output.errors@.len() - i,
    {
        let (line, message) = error_line(&output.errors[i]);
        lines.push(line);
        proof {
            messages = messages.push(message@);
        }
        i = i + 1;
    }
    let r = render_report(status.as_str(), &lines, &output.stdout, &output.stderr);
    assert(lines@.map_values(|s: String| s@) =~= error_lines_of(output.errors@, messages));
    r
}

} // verus!
