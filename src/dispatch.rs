//! The delivery side of the frame pipeline: frames are handed to the
//! transport in the order they arrive, a failed write does not stop the
//! frames after it, and the transport is torn down exactly once at the end.
use vstd::prelude::*;

use crate::codec::Frame;

verus! {

/// One call on a transport, with whether it succeeded.
#[derive(Clone, Copy, Debug, PartialEq, Eq)]
pub enum TransportEvent {
    Write { frame: Frame, ok: bool },
    Disconnect { ok: bool },
}

/// The link to the device: a best-effort write of one frame, and the
/// teardown of the connection.
pub trait Transport {
    /// Every call made on the transport so far, oldest first, with its
    /// outcome.
    spec fn history(&self) -> Seq<TransportEvent>;

    /// Sends one frame without waiting for the device to acknowledge it.
    fn write(&mut self, frame: Frame) -> (r: Result<(), String>)
        ensures
            final(self).history() == old(self).history().push(
                TransportEvent::Write { frame, ok: r is Ok },
            ),
    ;

    /// Closes the connection.
    fn disconnect(&mut self) -> (r: Result<(), String>)
        ensures
            final(self).history() == old(self).history().push(
                TransportEvent::Disconnect { ok: r is Ok },
            ),
    ;
}

/// How many of the events are failed writes.
pub open spec fn failed_writes(h: Seq<TransportEvent>) -> nat
    decreases h.len(),
{
    if h.len() == 0 {
        0
    } else {
        failed_writes(h.drop_last()) + match h.last() {
            TransportEvent::Write { ok: false, .. } => 1nat,
            _ => 0nat,
        }
    }
}

/// `h` is the writes of `frames`, in that order and one each, with any
/// outcomes.
pub open spec fn writes_of(h: Seq<TransportEvent>, frames: Seq<Frame>) -> bool {
    &&& h.len() == frames.len()
    &&& forall|i: int|
        0 <= i < h.len() ==> (#[trigger] h[i]) is Write && h[i]->Write_frame == frames[i]
}

/// The consumer of the pipeline: forwards frames one at a time and tears
/// the transport down once at the end.
pub struct Courier {
    failures: u64,
    finished: bool,
}

/// The outcome of delivering a batch of frames and closing the transport.
pub struct DeliveryReport {
    /// How many writes failed.
    pub failures: usize,
    /// What the teardown returned.
    pub disconnect: Result<(), String>,
}

/// What delivering `frames` and then closing did to a transport whose
/// history went from `before` to `after`, as `report` tells it: the
/// frames were written in order, one each, then the transport was closed
/// once, and the report counts the failed writes and gives the outcome of
/// the close.
pub open spec fn delivered(
    before: Seq<TransportEvent>,
    after: Seq<TransportEvent>,
    frames: Seq<Frame>,
    report: DeliveryReport,
) -> bool {
    let n = frames.len();
    let writes = after.subrange(before.len() as int, (before.len() + n) as int);
    &&& after.len() == before.len() + n + 1
    &&& after.subrange(0, before.len() as int) == before
    &&& writes_of(writes, frames)
    &&& after.last() == (TransportEvent::Disconnect { ok: report.disconnect is Ok })
    &&& report.failures == failed_writes(writes)
}

impl Courier {
    pub closed spec fn failure_count(&self) -> u64 {
        self.failures
    }

    pub closed spec fn is_finished(&self) -> bool {
        self.finished
    }

    pub fn new() -> (r: Courier)
        ensures
            r.failure_count() == 0,
            !r.is_finished(),
    {
        Courier { failures: 0, finished: false }
    }

    /// How many writes have failed so far (held at `u64::MAX`).
    pub fn failures(&self) -> (r: u64)
        ensures
            r == self.failure_count(),
    {
        self.failures
    }

    /// Whether the transport has been torn down.
    pub fn finished(&self) -> (r: bool)
        ensures
            r == self.is_finished(),
    {
        self.finished
    }

    /// Writes one frame. A failure is counted and returned for the caller
    /// to report; it does not end the delivery. Nothing is written once the
    /// transport has been torn down.
    pub fn forward<T: Transport>(&mut self, transport: &mut T, frame: Frame) -> (r: Result<
        (),
        String,
    >)
        requires
            !old(self).is_finished(),
        ensures
            final(transport).history() == old(transport).history().push(
                TransportEvent::Write { frame, ok: r is Ok },
            ),
            !final(self).is_finished(),
            final(self).failure_count() == if r is Ok {
                old(self).failure_count()
            } else {
                old(self).failure_count().saturating_add(1)
            },
    {
        let r = transport.write(frame);
        if r.is_err() {
            self.failures = self.failures.saturating_add(1);
        }
        r
    }

    /// Tears the transport down if that has not happened yet, and returns
    /// what the teardown returned; returns `None`, and leaves the transport
    /// alone, when it had happened.
    pub fn finish<T: Transport>(&mut self, transport: &mut T) -> (r: Option<Result<(), String>>)
        ensures
            final(self).is_finished(),
            final(self).failure_count() == old(self).failure_count(),
            r is Some <==> !old(self).is_finished(),
            old(self).is_finished() ==> final(transport).history() == old(transport).history(),
            match r {
                Some(d) => final(transport).history() == old(transport).history().push(
                    TransportEvent::Disconnect { ok: d is Ok },
                ),
                None => true,
            },
    {
        if self.finished {
            None
        } else {
            let r = transport.disconnect();
            self.finished = true;
            Some(r)
        }
    }
}

/// Delivers `frames` in order, going on past failed writes, then tears the
/// transport down once, after the last write.
pub fn deliver_all<T: Transport>(transport: &mut T, frames: &Vec<Frame>) -> (r: DeliveryReport)
    ensures
        delivered(old(transport).history(), final(transport).history(), frames@, r),
{
    let ghost start = transport.history();
    let mut courier = Courier::new();
    let mut failures: usize = 0;
    let mut i: usize = 0;
    while i < frames.len()
        invariant
            i <= frames.len(),
            !courier.is_finished(),
            start == old(transport).history(),
            transport.history().len() == start.len() + i,
            transport.history().subrange(0, start.len() as int) == start,
            writes_of(
                transport.history().subrange(start.len() as int, start.len() + i),
                frames@.subrange(0, i as int),
            ),
            failures == failed_writes(
                transport.history().subrange(start.len() as int, start.len() + i),
            ),
            failures <= i,
        decreases frames.len() - i,
    {
        let ghost h0 = transport.history();
        let r = courier.forward(transport, frames[i]);
        if r.is_err() {
            failures = failures + 1;
        }
        i = i + 1;
        proof {
            let h = transport.history();
            let w = h.subrange(start.len() as int, start.len() + i);
            assert(w.drop_last() =~= h0.subrange(start.len() as int, start.len() + i - 1));
            assert(h.subrange(0, start.len() as int) =~= h0.subrange(0, start.len() as int));
            assert(frames@.subrange(0, i as int).drop_last() =~= frames@.subrange(0, i - 1));
            let w0 = h0.subrange(start.len() as int, start.len() + i - 1);
            assert forall|j: int| 0 <= j < w.len() implies (#[trigger] w[j]) is Write && w[j]->Write_frame
                == frames@.subrange(0, i as int)[j] by {
                if j < w.len() - 1 {
                    assert(w[j] == w0[j]);
                }
            }
        }
    }
    let ghost h1 = transport.history();
    let disconnect = match courier.finish(transport) {
        Some(d) => d,
        None => Ok(()),
    };
    proof {
        let h = transport.history();
        assert(frames@.subrange(0, frames.len() as int) =~= frames@);
        assert(h.subrange(0, start.len() as int) =~= h1.subrange(0, start.len() as int));
        assert(h.subrange(start.len() as int, start.len() + frames.len()) =~= h1.subrange(
            start.len() as int,
            start.len() + frames.len(),
        ));
    }
    DeliveryReport { failures, disconnect }
}

/// Whether `v` holds `x`.
fn holds(v: &Vec<usize>, x: usize) -> (r: bool)
    ensures
        r == v@.contains(x),
{
    let mut i: usize = 0;
    while i < v.len()
        invariant
            i <= v.len(),
            forall|j: int| 0 <= j < i ==> v@[j] != x,
        decreases v.len() - i,
    {
        if v[i] == x {
            return true;
        }
        i = i + 1;
    }
    false
}

/// A transport with no device behind it, for exercising the pipeline. It
/// keeps every call in `events`, fails each write made when the number of
/// events so far is in `failing`, and always disconnects cleanly.
pub struct RecordingTransport {
    pub events: Vec<TransportEvent>,
    pub failing: Vec<usize>,
}

impl RecordingTransport {
    /// A transport whose writes all succeed.
    pub fn new() -> (r: RecordingTransport)
        ensures
            r.events@.len() == 0,
            r.failing@.len() == 0,
    {
        RecordingTransport { events: Vec::new(), failing: Vec::new() }
    }

    /// A transport whose writes at the positions in `failing` fail.
    pub fn failing_at(failing: Vec<usize>) -> (r: RecordingTransport)
        ensures
            r.events@.len() == 0,
            r.failing@ == failing@,
    {
        RecordingTransport { events: Vec::new(), failing }
    }
}

impl Transport for RecordingTransport {
    open spec fn history(&self) -> Seq<TransportEvent> {
        self.events@
    }

    fn write(&mut self, frame: Frame) -> (r: Result<(), String>)
        ensures
            final(self).failing@ == old(self).failing@,
            r is Err <==> old(self).failing@.contains(old(self).events@.len() as usize),
    {
        let ok = !holds(&self.failing, self.events.len());
        self.events.push(TransportEvent::Write { frame, ok });
        if ok {
            Ok(())
        } else {
            Err(String::from_str("write refused"))
        }
    }

    fn disconnect(&mut self) -> (r: Result<(), String>)
        ensures
            final(self).failing@ == old(self).failing@,
            r is Ok,
    {
        self.events.push(TransportEvent::Disconnect { ok: true });
        Ok(())
    }
}

} // verus!
