use vstd::prelude::*;

verus! {

/// Capacity of the pump's intermediate buffer: the most bytes one read may
/// bring in.
pub const BUF_SIZE: usize = 16384;

/// Marks `std::io::Error` as an opaque type that contracts may carry around.
#[verifier::external_type_specification]
#[verifier::external_body]
pub struct ExIoError(std::io::Error);

/// What one step of a pump produced.
pub enum ReadOrWrite {
    /// A non-empty chunk was just read from the source; it is forwarded to
    /// the sink by later steps.
    Read(Vec<u8>),
    /// Some buffered bytes were accepted by the sink.
    Written,
    /// The source reported end of stream.
    EOF,
}

/// The I/O that a pump asks its driver to perform next.
pub enum PumpRequest {
    /// Read at most this many bytes from the source.
    Read(usize),
    /// Write (a prefix of) these bytes to the sink.
    Write(Vec<u8>),
    /// Nothing: the pump has finished.
    Idle,
}

/// The successful outcome of the I/O that a pump requested.
pub enum PumpEvent {
    /// The read returned these bytes (empty at end of stream).
    Filled(Vec<u8>),
    /// The sink accepted this many of the bytes handed to it.
    Drained(usize),
}

/// A tee pump: moves bytes from a source to a sink one step at a time,
/// through a single half-duplex buffer.
///
/// A read is requested only when the buffer is drained (`start == end`), and
/// a write only while it holds unwritten bytes (`start < end`), so bytes
/// leave in exactly the order in which they came in. The pump latches its
/// end: once it has seen end of stream or an I/O error it requests nothing
/// more.
pub struct TapStream {
    buffer: Vec<u8>,
    start: usize,
    end: usize,
    done: bool,
    /// Every byte read from the source so far, in order.
    received: Ghost<Seq<u8>>,
    /// Every byte accepted by the sink so far, in order.
    forwarded: Ghost<Seq<u8>>,
}

impl TapStream {
    /// The buffered bytes that still wait to be written.
    pub closed spec fn pending(&self) -> Seq<u8> {
        self.buffer@.subrange(self.start as int, self.end as int)
    }

    pub closed spec fn received(&self) -> Seq<u8> {
        self.received@
    }

    pub closed spec fn forwarded(&self) -> Seq<u8> {
        self.forwarded@
    }

    /// Whether the pump has reached its end (end of stream or an I/O error).
    pub closed spec fn done(&self) -> bool {
        self.done
    }

    pub closed spec fn wf(&self) -> bool {
        &&& self.start <= self.end <= self.buffer@.len()
        &&& self.end <= BUF_SIZE
        &&& self.received@ == self.forwarded@ + self.pending()
    }

    /// Whether `outcome` is a possible outcome of the I/O this pump requests.
    pub open spec fn accepts(&self, outcome: Result<PumpEvent, std::io::Error>) -> bool {
        &&& !self.done()
        &&& match outcome {
            Ok(PumpEvent::Filled(bytes)) => self.pending().len() == 0 && bytes@.len() <= BUF_SIZE,
            Ok(PumpEvent::Drained(n)) => 0 < self.pending().len() && n <= self.pending().len(),
            Err(_) => true,
        }
    }

    /// Bytes leave in the order in which they came: what was received is
    /// what was forwarded followed by what is still buffered.
    pub proof fn lemma_in_order(&self)
        requires
            self.wf(),
        ensures
            self.received() == self.forwarded() + self.pending(),
    {
    }

    /// A fresh pump: empty buffer, nothing read or forwarded.
    pub fn new() -> (r: TapStream)
        ensures
            r.wf(),
            !r.done(),
            r.pending() == Seq::<u8>::empty(),
            r.received() == Seq::<u8>::empty(),
            r.forwarded() == Seq::<u8>::empty(),
    {
        let r = TapStream {
            buffer: Vec::new(),
            start: 0,
            end: 0,
            done: false,
            received: Ghost(Seq::empty()),
            forwarded: Ghost(Seq::empty()),
        };
        assert(r.pending() =~= Seq::<u8>::empty());
        r
    }

    /// Whether the pump has reached its end.
    pub fn is_done(&self) -> (r: bool)
        ensures
            r == self.done(),
    {
        self.done
    }

    /// The I/O to perform before the next step: nothing once the pump is
    /// done, else a read while the buffer is drained, else a write of the
    /// buffered bytes.
    pub fn request(&self) -> (r: PumpRequest)
        requires
            self.wf(),
        ensures
            self.done() ==> r is Idle,
            !self.done() && self.pending().len() == 0 ==> r == PumpRequest::Read(BUF_SIZE),
            !self.done() && self.pending().len() > 0 ==> (match r {
                PumpRequest::Write(bytes) => bytes@ == self.pending(),
                _ => false,
            }),
    {
        if self.done {
            PumpRequest::Idle
        } else if self.start == self.end {
            PumpRequest::Read(BUF_SIZE)
        } else {
            let mut bytes: Vec<u8> = Vec::new();
            let mut i: usize = self.start;
            while i < self.end
                invariant
                    self.wf(),
                    self.start <= i <= self.end,
                    bytes@ == self.buffer@.subrange(self.start as int, i as int),
                decreases self.end - i,
            {
                bytes.push(self.buffer[i]);
                i = i + 1;
                assert(bytes@ =~= self.buffer@.subrange(self.start as int, i as int));
            }
            PumpRequest::Write(bytes)
        }
    }

    /// How the pump's state moves from `self` to `next` on `outcome`: a read
    /// buffers its bytes and adds them to what was received, ending the
    /// pump when there are none; a write moves the accepted prefix of the
    /// buffer to what was forwarded; an error ends the pump.
    pub open spec fn advanced(&self, next: TapStream, outcome: Result<PumpEvent, std::io::Error>) -> bool {
        match outcome {
            Ok(PumpEvent::Filled(bytes)) => {
                &&& next.done() == (bytes@.len() == 0)
                &&& next.pending() == bytes@
                &&& next.received() == self.received() + bytes@
                &&& next.forwarded() == self.forwarded()
            },
            Ok(PumpEvent::Drained(n)) => {
                &&& !next.done()
                &&& next.pending() == self.pending().subrange(n as int, self.pending().len() as int)
                &&& next.received() == self.received()
                &&& next.forwarded() == self.forwarded() + self.pending().subrange(0, n as int)
            },
            Err(_) => {
                &&& next.done()
                &&& next.pending() == self.pending()
                &&& next.received() == self.received()
                &&& next.forwarded() == self.forwarded()
            },
        }
    }

    /// Takes the outcome of the requested I/O and advances the pump.
    ///
    /// A read of zero bytes yields `EOF`; a read of some bytes yields them as
    /// `Read` and buffers them for writing; a write drops the accepted bytes
    /// from the buffer and yields `Written`. An I/O error is handed back and
    /// ends the pump, as end of stream does.
    pub fn step(&mut self, outcome: Result<PumpEvent, std::io::Error>) -> (r: Result<ReadOrWrite, std::io::Error>)
        requires
            old(self).wf(),
            old(self).accepts(outcome),
        ensures
            final(self).wf(),
            old(self).advanced(*final(self), outcome),
            match outcome {
                Ok(PumpEvent::Filled(bytes)) => if bytes@.len() == 0 {
                    r == Ok::<ReadOrWrite, std::io::Error>(ReadOrWrite::EOF)
                } else {
                    match r {
                        Ok(ReadOrWrite::Read(chunk)) => chunk@ == bytes@,
                        _ => false,
                    }
                },
                Ok(PumpEvent::Drained(n)) => r == Ok::<ReadOrWrite, std::io::Error>(ReadOrWrite::Written),
                Err(e) => r == Err::<ReadOrWrite, std::io::Error>(e),
            },
    {
        match outcome {
            Ok(PumpEvent::Filled(bytes)) => {
                let n = bytes.len();
                if n == 0 {
                    self.done = true;
                    assert(self.pending() =~= bytes@);
                    assert(self.received@ =~= self.received@ + bytes@);
                    Ok(ReadOrWrite::EOF)
                } else {
                    let chunk = bytes.clone();
                    proof {
                        assert(chunk@ =~= bytes@);
                        self.received@ = self.received@ + bytes@;
                    }
                    self.buffer = bytes;
                    self.start = 0;
                    self.end = n;
                    assert(self.pending() =~= chunk@);
                    Ok(ReadOrWrite::Read(chunk))
                }
            },
            Ok(PumpEvent::Drained(n)) => {
                let ghost before = self.pending();
                proof {
                    self.forwarded@ = self.forwarded@ + before.subrange(0, n as int);
                }
                self.start = self.start + n;
                assert(self.pending() =~= before.subrange(n as int, before.len() as int));
                assert(self.received@ =~= self.forwarded@ + self.pending());
                Ok(ReadOrWrite::Written)
            },
            Err(e) => {
                self.done = true;
                Err(e)
            },
        }
    }
}

} // verus!
