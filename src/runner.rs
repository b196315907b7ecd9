use vstd::prelude::*;
use crate::tap_stream::{PumpEvent, PumpRequest, ReadOrWrite, TapStream, BUF_SIZE};

verus! {

/// How a child process ended, as plain values: its exit code if it exited
/// with one, and the platform's description of the status (for instance
/// `exit status: 1`, or `signal: 9 (SIGKILL)` for a killed process).
#[derive(Debug, PartialEq, Eq)]
pub struct ProcessStatus {
    pub code: Option<i32>,
    pub text: String,
}

impl ProcessStatus {
    /// Whether the process exited with code zero.
    pub open spec fn spec_success(&self) -> bool {
        self.code == Some(0i32)
    }

    #[verifier::when_used_as_spec(spec_success)]
    pub fn success(&self) -> (r: bool)
        ensures
            r == self.spec_success(),
    {
        match self.code {
            Some(c) => c == 0,
            None => false,
        }
    }
}

/// A failure met while running and capturing a command, by the activity
/// that met it.
pub enum CaptureError {
    /// The process could not be started.
    Spawn(std::io::Error),
    /// Reading the child's stdout or echoing it failed.
    Stdout(std::io::Error),
    /// Reading the child's stderr or echoing it failed.
    Stderr(std::io::Error),
    /// Waiting for the child's exit status failed.
    Wait(std::io::Error),
}

/// Everything one run of a command produced.
pub struct CapturedOutput {
    pub status: Option<ProcessStatus>,
    pub stdout: Vec<u8>,
    pub stderr: Vec<u8>,
    pub errors: Vec<CaptureError>,
}

impl CapturedOutput {
    /// Whether there are no errors and nothing was captured on either
    /// stream; the status plays no part.
    pub open spec fn spec_is_empty(&self) -> bool {
        &&& self.errors@.len() == 0
        &&& self.stdout@.len() == 0
        &&& self.stderr@.len() == 0
    }

    #[verifier::when_used_as_spec(spec_is_empty)]
    pub fn is_empty(&self) -> (r: bool)
        ensures
            r == self.spec_is_empty(),
    {
        self.errors.is_empty() && self.stdout.is_empty() && self.stderr.is_empty()
    }
}

/// The result of a command that could not be started: no status, nothing
/// captured, and the spawn error as the only error.
pub fn spawn_failed(error: std::io::Error) -> (r: CapturedOutput)
    ensures
        r.status is None,
        r.stdout@ == Seq::<u8>::empty(),
        r.stderr@ == Seq::<u8>::empty(),
        r.errors@ == seq![CaptureError::Spawn(error)],
{
    let mut errors: Vec<CaptureError> = Vec::new();
    errors.push(CaptureError::Spawn(error));
    CapturedOutput { status: None, stdout: Vec::new(), stderr: Vec::new(), errors }
}

/// One outcome of the three activities that a capture drives.
pub enum CaptureEvent {
    /// The I/O requested by the stdout pump finished.
    Stdout(Result<PumpEvent, std::io::Error>),
    /// The I/O requested by the stderr pump finished.
    Stderr(Result<PumpEvent, std::io::Error>),
    /// Waiting for the child's exit finished.
    Exit(Result<ProcessStatus, std::io::Error>),
}

/// The bytes that the reads of the child's stdout delivered over a history
/// of events, in order.
pub open spec fn stdout_read(h: Seq<CaptureEvent>) -> Seq<u8>
    decreases h.len(),
{
    if h.len() == 0 {
        Seq::empty()
    } else {
        stdout_read(h.drop_last()) + match h.last() {
            CaptureEvent::Stdout(Ok(PumpEvent::Filled(bytes))) => bytes@,
            _ => Seq::<u8>::empty(),
        }
    }
}

/// The bytes that the reads of the child's stderr delivered over a history
/// of events, in order.
pub open spec fn stderr_read(h: Seq<CaptureEvent>) -> Seq<u8>
    decreases h.len(),
{
    if h.len() == 0 {
        Seq::empty()
    } else {
        stderr_read(h.drop_last()) + match h.last() {
            CaptureEvent::Stderr(Ok(PumpEvent::Filled(bytes))) => bytes@,
            _ => Seq::<u8>::empty(),
        }
    }
}

/// Whether an event reports an I/O fault (of a read, a write or the wait).
pub open spec fn is_fault(e: CaptureEvent) -> bool {
    ||| e matches CaptureEvent::Stdout(Err(_))
    ||| e matches CaptureEvent::Stderr(Err(_))
    ||| e matches CaptureEvent::Exit(Err(_))
}

/// The number of I/O faults in a history of events.
pub open spec fn fault_count(h: Seq<CaptureEvent>) -> nat
    decreases h.len(),
{
    if h.len() == 0 {
        0
    } else {
        fault_count(h.drop_last()) + if is_fault(h.last()) {
            1nat
        } else {
            0nat
        }
    }
}

/// The exit status that a history of events reports, if any.
pub open spec fn exit_of(h: Seq<CaptureEvent>) -> Option<ProcessStatus>
    decreases h.len(),
{
    if h.len() == 0 {
        None
    } else {
        match h.last() {
            CaptureEvent::Exit(Ok(status)) => Some(status),
            _ => exit_of(h.drop_last()),
        }
    }
}

/// The coordinator of a running child: its two pumps, the bytes captured
/// from each, the errors met so far, and the exit status once known.
///
/// The driver asks for the pending I/O of each activity that is still
/// active, performs whichever is ready, and hands its outcome to
/// [`Capture::handle`]. An I/O error ends the activity that met it, so no
/// activity can produce errors without end. The capture is finished only
/// when both streams have ended and the wait has resolved: a child that
/// exits while a descendant still holds one of its pipes open keeps the
/// capture running until that pipe closes.
pub struct Capture {
    stdout_tap: TapStream,
    stderr_tap: TapStream,
    stdout: Vec<u8>,
    stderr: Vec<u8>,
    errors: Vec<CaptureError>,
    status: Option<ProcessStatus>,
    waited: bool,
    /// Every event handled so far, in order.
    history: Ghost<Seq<CaptureEvent>>,
}

impl Capture {
    pub closed spec fn stdout_tap(&self) -> TapStream {
        self.stdout_tap
    }

    pub closed spec fn stderr_tap(&self) -> TapStream {
        self.stderr_tap
    }

    /// The bytes captured from the child's stdout so far.
    pub closed spec fn stdout_bytes(&self) -> Seq<u8> {
        self.stdout@
    }

    /// The bytes captured from the child's stderr so far.
    pub closed spec fn stderr_bytes(&self) -> Seq<u8> {
        self.stderr@
    }

    pub closed spec fn errors(&self) -> Seq<CaptureError> {
        self.errors@
    }

    pub closed spec fn status(&self) -> Option<ProcessStatus> {
        self.status
    }

    /// Every event handled so far, in order.
    pub closed spec fn history(&self) -> Seq<CaptureEvent> {
        self.history@
    }

    /// Whether the wait for the exit status has resolved, with a status or
    /// an error.
    pub closed spec fn waited(&self) -> bool {
        self.waited
    }

    pub closed spec fn wf(&self) -> bool {
        &&& self.stdout_tap.wf()
        &&& self.stderr_tap.wf()
        &&& self.stdout@ == self.stdout_tap.received()
        &&& self.stderr@ == self.stderr_tap.received()
        &&& (self.status is Some ==> self.waited)
        &&& (self.stdout_tap.done() && self.stdout_tap.pending().len() > 0 ==> self.errors@.len() > 0)
        &&& (self.stderr_tap.done() && self.stderr_tap.pending().len() > 0 ==> self.errors@.len() > 0)
        &&& (self.waited && self.status is None ==> self.errors@.len() > 0)
        &&& self.stdout@ == stdout_read(self.history@)
        &&& self.stderr@ == stderr_read(self.history@)
        &&& self.errors@.len() == fault_count(self.history@)
        &&& self.status == exit_of(self.history@)
    }

    pub open spec fn finished(&self) -> bool {
        &&& self.stdout_tap().done()
        &&& self.stderr_tap().done()
        &&& self.waited()
    }

    /// Whether `event` is a possible outcome of the I/O that this capture
    /// has asked for.
    pub open spec fn accepts(&self, event: CaptureEvent) -> bool {
        match event {
            CaptureEvent::Stdout(outcome) => self.stdout_tap().accepts(outcome),
            CaptureEvent::Stderr(outcome) => self.stderr_tap().accepts(outcome),
            CaptureEvent::Exit(_) => !self.waited(),
        }
    }

    /// A capture for a child that has just been started.
    pub fn new() -> (r: Capture)
        ensures
            r.wf(),
            !r.stdout_tap().done(),
            !r.stderr_tap().done(),
            !r.waited(),
            r.status() is None,
            r.stdout_bytes() == Seq::<u8>::empty(),
            r.stderr_bytes() == Seq::<u8>::empty(),
            r.errors() == Seq::<CaptureError>::empty(),
            r.history() == Seq::<CaptureEvent>::empty(),
            r.stdout_tap().pending() == Seq::<u8>::empty(),
            r.stderr_tap().pending() == Seq::<u8>::empty(),
            r.stdout_tap().received() == Seq::<u8>::empty(),
            r.stderr_tap().received() == Seq::<u8>::empty(),
            r.stdout_tap().forwarded() == Seq::<u8>::empty(),
            r.stderr_tap().forwarded() == Seq::<u8>::empty(),
    {
        Capture {
            stdout_tap: TapStream::new(),
            stderr_tap: TapStream::new(),
            stdout: Vec::new(),
            stderr: Vec::new(),
            errors: Vec::new(),
            status: None,
            waited: false,
            history: Ghost(Seq::empty()),
        }
    }

    /// The I/O that the stdout pump needs next (`Idle` once it has ended).
    pub fn stdout_request(&self) -> (r: PumpRequest)
        requires
            self.wf(),
        ensures
            self.stdout_tap().done() ==> r is Idle,
            !self.stdout_tap().done() && self.stdout_tap().pending().len() == 0 ==> r == PumpRequest::Read(BUF_SIZE),
            !self.stdout_tap().done() && self.stdout_tap().pending().len() > 0 ==> (match r {
                PumpRequest::Write(bytes) => bytes@ == self.stdout_tap().pending(),
                _ => false,
            }),
    {
        self.stdout_tap.request()
    }

    /// The I/O that the stderr pump needs next (`Idle` once it has ended).
    pub fn stderr_request(&self) -> (r: PumpRequest)
        requires
            self.wf(),
        ensures
            self.stderr_tap().done() ==> r is Idle,
            !self.stderr_tap().done() && self.stderr_tap().pending().len() == 0 ==> r == PumpRequest::Read(BUF_SIZE),
            !self.stderr_tap().done() && self.stderr_tap().pending().len() > 0 ==> (match r {
                PumpRequest::Write(bytes) => bytes@ == self.stderr_tap().pending(),
                _ => false,
            }),
    {
        self.stderr_tap.request()
    }

    /// Whether the exit status is still awaited.
    pub fn awaiting_exit(&self) -> (r: bool)
        ensures
            r == !self.waited(),
    {
        !self.waited
    }

    /// Whether both streams have ended and the wait has resolved.
    pub fn is_finished(&self) -> (r: bool)
        ensures
            r == self.finished(),
    {
        self.stdout_tap.is_done() && self.stderr_tap.is_done() && self.waited
    }
    /// Takes the outcome of one activity's I/O.
    ///
    /// A chunk read from a stream is appended to that stream's captured
    /// bytes; an I/O error is recorded under the activity that met it and
    /// ends that activity; a resolved wait records the exit status once.
    /// Nothing else changes.
    pub fn handle(&mut self, event: CaptureEvent)
        requires
            old(self).wf(),
            old(self).accepts(event),
        ensures
            final(self).wf(),
            final(self).history() == old(self).history().push(event),
            match event {
                CaptureEvent::Stdout(outcome) => {
                    &&& old(self).stdout_tap().advanced(final(self).stdout_tap(), outcome)
                    &&& final(self).stderr_tap() == old(self).stderr_tap()
                    &&& final(self).stdout_bytes() == old(self).stdout_bytes() + match outcome {
                        Ok(PumpEvent::Filled(bytes)) => bytes@,
                        _ => Seq::<u8>::empty(),
                    }
                    &&& final(self).stderr_bytes() == old(self).stderr_bytes()
                    &&& final(self).errors() == match outcome {
                        Err(e) => old(self).errors().push(CaptureError::Stdout(e)),
                        _ => old(self).errors(),
                    }
                    &&& final(self).status() == old(self).status()
                    &&& final(self).waited() == old(self).waited()
                },
                CaptureEvent::Stderr(outcome) => {
                    &&& old(self).stderr_tap().advanced(final(self).stderr_tap(), outcome)
                    &&& final(self).stdout_tap() == old(self).stdout_tap()
                    &&& final(self).stderr_bytes() == old(self).stderr_bytes() + match outcome {
                        Ok(PumpEvent::Filled(bytes)) => bytes@,
                        _ => Seq::<u8>::empty(),
                    }
                    &&& final(self).stdout_bytes() == old(self).stdout_bytes()
                    &&& final(self).errors() == match outcome {
                        Err(e) => old(self).errors().push(CaptureError::Stderr(e)),
                        _ => old(self).errors(),
                    }
                    &&& final(self).status() == old(self).status()
                    &&& final(self).waited() == old(self).waited()
                },
                CaptureEvent::Exit(result) => {
                    &&& final(self).stdout_tap() == old(self).stdout_tap()
                    &&& final(self).stderr_tap() == old(self).stderr_tap()
                    &&& final(self).stdout_bytes() == old(self).stdout_bytes()
                    &&& final(self).stderr_bytes() == old(self).stderr_bytes()
                    &&& final(self).waited()
                    &&& match result {
                        Ok(status) => {
                            &&& final(self).status() == Some(status)
                            &&& final(self).errors() == old(self).errors()
                        },
                        Err(e) => {
                            &&& final(self).status() is None
                            &&& final(self).errors() == old(self).errors().push(CaptureError::Wait(e))
                        },
                    }
                },
            },
    {
        let ghost ev = event;
        match event {
            CaptureEvent::Stdout(outcome) => {
                match self.stdout_tap.step(outcome) {
                    Ok(ReadOrWrite::Read(chunk)) => {
                        self.stdout.extend_from_slice(chunk.as_slice());
                        assert(self.stdout@ =~= old(self).stdout@ + chunk@);
                    },
                    Ok(ReadOrWrite::Written) => {},
                    Ok(ReadOrWrite::EOF) => {
                        assert(self.stdout@ =~= old(self).stdout@ + Seq::<u8>::empty());
                    },
                    Err(e) => self.errors.push(CaptureError::Stdout(e)),
                }
                assert(self.stdout@ =~= self.stdout_tap.received());
            },
            CaptureEvent::Stderr(outcome) => {
                match self.stderr_tap.step(outcome) {
                    Ok(ReadOrWrite::Read(chunk)) => {
                        self.stderr.extend_from_slice(chunk.as_slice());
                        assert(self.stderr@ =~= old(self).stderr@ + chunk@);
                    },
                    Ok(ReadOrWrite::Written) => {},
                    Ok(ReadOrWrite::EOF) => {
                        assert(self.stderr@ =~= old(self).stderr@ + Seq::<u8>::empty());
                    },
                    Err(e) => self.errors.push(CaptureError::Stderr(e)),
                }
                assert(self.stderr@ =~= self.stderr_tap.received());
            },
            CaptureEvent::Exit(result) => {
                match result {
                    Ok(status) => self.status = Some(status),
                    Err(e) => self.errors.push(CaptureError::Wait(e)),
                }
                self.waited = true;
            },
        }
        proof {
            self.history@ = self.history@.push(ev);
            assert(self.history@.drop_last() =~= old(self).history@);
            assert(self.history@.last() == ev);
            assert(stdout_read(self.history@) =~= self.stdout@);
            assert(stderr_read(self.history@) =~= self.stderr@);
        }
    }

    /// The record of the run, once every activity has finished.
    pub fn finish(self) -> (r: CapturedOutput)
        requires
            self.wf(),
            self.finished(),
        ensures
            r.status == self.status(),
            r.stdout@ == self.stdout_bytes(),
            r.stderr@ == self.stderr_bytes(),
            r.errors@ == self.errors(),
    {
        CapturedOutput { status: self.status, stdout: self.stdout, stderr: self.stderr, errors: self.errors }
    }
}


/// The bytes captured from each stream are exactly the bytes that the reads
/// of that stream delivered, in order, however they were chunked and
/// interleaved with the other activities; there is one error per I/O fault,
/// so a run without faults has none; and a finished run without faults has
/// the exit status that the wait reported.
pub proof fn lemma_capture_is_stream(c: Capture)
    requires
        c.wf(),
    ensures
        c.stdout_bytes() == stdout_read(c.history()),
        c.stderr_bytes() == stderr_read(c.history()),
        c.errors().len() == fault_count(c.history()),
        c.status() == exit_of(c.history()),
        c.finished() && fault_count(c.history()) == 0 ==> c.status() is Some,
{
}

/// The bytes echoed on each stream are a prefix of the bytes captured from
/// it, the rest being still buffered; once a run without faults has
/// finished, each stream's echo is exactly the bytes read from it.
pub proof fn lemma_echo_matches_capture(c: Capture)
    requires
        c.wf(),
    ensures
        c.stdout_bytes() == c.stdout_tap().forwarded() + c.stdout_tap().pending(),
        c.stderr_bytes() == c.stderr_tap().forwarded() + c.stderr_tap().pending(),
        c.finished() && fault_count(c.history()) == 0 ==> c.stdout_tap().forwarded() == stdout_read(c.history())
            && c.stdout_tap().forwarded() == c.stdout_bytes(),
        c.finished() && fault_count(c.history()) == 0 ==> c.stderr_tap().forwarded() == stderr_read(c.history())
            && c.stderr_tap().forwarded() == c.stderr_bytes(),
{
    c.stdout_tap().lemma_in_order();
    c.stderr_tap().lemma_in_order();
    if c.finished() && fault_count(c.history()) == 0 {
        assert(c.stdout_bytes() =~= c.stdout_tap().forwarded());
        assert(c.stderr_bytes() =~= c.stderr_tap().forwarded());
    }
}

/// A finished run without faults, whose child exited with code zero and
/// whose streams delivered no bytes, gives an empty record.
pub proof fn lemma_quiet_success_is_empty(c: Capture, r: CapturedOutput)
    requires
        c.wf(),
        c.finished(),
        fault_count(c.history()) == 0,
        exit_of(c.history()) matches Some(s) && s.spec_success(),
        stdout_read(c.history()).len() == 0,
        stderr_read(c.history()).len() == 0,
        r.status == c.status(),
        r.stdout@ == c.stdout_bytes(),
        r.stderr@ == c.stderr_bytes(),
        r.errors@ == c.errors(),
    ensures
        r.spec_is_empty(),
        r.status matches Some(s) && s.spec_success(),
{
}

/// Two runs whose streams delivered the same bytes capture the same bytes,
/// whatever the chunking of the reads and the order in which the
/// activities were served.
pub proof fn lemma_capture_deterministic(c1: Capture, c2: Capture)
    requires
        c1.wf(),
        c2.wf(),
        stdout_read(c1.history()) == stdout_read(c2.history()),
        stderr_read(c1.history()) == stderr_read(c2.history()),
    ensures
        c1.stdout_bytes() == c2.stdout_bytes(),
        c1.stderr_bytes() == c2.stderr_bytes(),
{
}

/// A finished run without faults, whose child wrote only to stderr and
/// exited with a failing status, captures nothing on stdout, exactly what
/// was written on stderr, that failing status, and no error.
pub proof fn lemma_stderr_only_failure(c: Capture)
    requires
        c.wf(),
        c.finished(),
        fault_count(c.history()) == 0,
        stdout_read(c.history()).len() == 0,
        exit_of(c.history()) matches Some(s) && !s.spec_success(),
    ensures
        c.stdout_bytes().len() == 0,
        c.stderr_bytes() == stderr_read(c.history()),
        c.status() matches Some(s) && !s.spec_success(),
        c.errors().len() == 0,
{
}

} // verus!
