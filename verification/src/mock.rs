//! An in-memory transport for exercising the engine without hardware.
//!
//! The mock records every call as an exec-level event (so tests can inspect
//! what the engine did) and answers reads from a script of queued outcomes.

use vstd::prelude::*;
use crate::error::TransportError;
use crate::transport::Transport;
use crate::transport::TransportEvent;

verus! {

/// One recorded call on a `MockTransport`, the runtime counterpart of
/// `TransportEvent`.
#[derive(Debug)]
pub enum MockEvent {
    /// A report was written; `written` is the count handed back, `None` when
    /// the write was made to fail.
    Write { report: Vec<u8>, written: Option<usize> },
    /// A read was performed; `received` is what it yielded, `None` when the
    /// read was made to fail.
    Read { received: Option<Vec<u8>> },
    /// Stale data was drained.
    Drain,
    /// The blocking mode was switched.
    SetBlocking { blocking: bool, accepted: bool },
}

impl View for MockEvent {
    type V = TransportEvent;

    open spec fn view(&self) -> TransportEvent {
        match self {
            MockEvent::Write { report, written } => TransportEvent::Write {
                report: report@,
                written: match written {
                    Some(count) => Some(*count as nat),
                    None => None,
                },
            },
            MockEvent::Read { received } => TransportEvent::Read {
                received: match received {
                    Some(data) => Some(data@),
                    None => None,
                },
            },
            MockEvent::Drain => TransportEvent::Drain,
            MockEvent::SetBlocking { blocking, accepted } => TransportEvent::SetBlocking {
                blocking: *blocking,
                accepted: *accepted,
            },
        }
    }
}

/// The transport history a sequence of recorded events stands for.
pub open spec fn events_view(s: Seq<MockEvent>) -> Seq<TransportEvent> {
    s.map(|i: int, e: MockEvent| e@)
}

proof fn lemma_events_view_push(s: Seq<MockEvent>, e: MockEvent)
    ensures
        events_view(s.push(e)) == events_view(s).push(e@),
{
    assert(events_view(s.push(e)) =~= events_view(s).push(e@));
}

/// A transport that records calls and plays back scripted read outcomes.
pub struct MockTransport {
    /// Every call made so far, oldest first.
    pub events: Vec<MockEvent>,
    /// Outcomes the next reads will yield, front first: `None` is a channel
    /// failure, `Some(bytes)` is a report (truncated to the read's limit).
    /// When the script is exhausted, reads time out with zero bytes.
    pub responses: Vec<Option<Vec<u8>>>,
    /// Make every write fail.
    pub fail_writes: bool,
    /// Make every blocking-mode switch fail.
    pub fail_set_blocking: bool,
}

fn copy_bytes(src: &Vec<u8>) -> (r: Vec<u8>)
    ensures
        r@ == src@,
{
    let mut out: Vec<u8> = Vec::new();
    let mut i: usize = 0;
    while i < src.len()
        invariant
            i <= src@.len(),
            out@ == src@.subrange(0, i as int),
        decreases src@.len() - i,
    {
        out.push(src[i]);
        proof {
            assert(out@ =~= src@.subrange(0, i + 1 as int));
        }
        i = i + 1;
    }
    proof {
        assert(out@ =~= src@);
    }
    out
}

impl MockTransport {
    /// A fresh mock: nothing recorded, nothing scripted, nothing failing.
    pub fn new() -> (r: MockTransport)
        ensures
            r.events@.len() == 0,
            r.history() == Seq::<TransportEvent>::empty(),
            r.responses@.len() == 0,
            !r.fail_writes,
            !r.fail_set_blocking,
    {
        let t = MockTransport {
            events: Vec::new(),
            responses: Vec::new(),
            fail_writes: false,
            fail_set_blocking: false,
        };
        proof {
            assert(t.history() =~= Seq::<TransportEvent>::empty());
        }
        t
    }
}

impl Transport for MockTransport {
    open spec fn history(&self) -> Seq<TransportEvent> {
        events_view(self.events@)
    }

    fn write(&mut self, report: &Vec<u8>) -> (r: Result<usize, TransportError>) {
        let written: Option<usize> = if self.fail_writes {
            None
        } else {
            Some(report.len())
        };
        let event = MockEvent::Write { report: copy_bytes(report), written };
        let ghost recorded = event;
        self.events.push(event);
        proof {
            lemma_events_view_push(old(self).events@, recorded);
        }
        match written {
            Some(count) => Ok(count),
            None => Err(TransportError),
        }
    }

    fn read_with_timeout(&mut self, max_len: usize, _timeout_ms: u32) -> (r: Result<
        Vec<u8>,
        TransportError,
    >) {
        let outcome: Option<Vec<u8>> = if self.responses.len() > 0 {
            match self.responses.remove(0) {
                None => None,
                Some(mut data) => {
                    if data.len() > max_len {
                        data.truncate(max_len);
                    }
                    Some(data)
                },
            }
        } else {
            Some(Vec::new())
        };
        let received: Option<Vec<u8>> = match &outcome {
            Some(data) => Some(copy_bytes(data)),
            None => None,
        };
        let event = MockEvent::Read { received };
        let ghost recorded = event;
        self.events.push(event);
        proof {
            lemma_events_view_push(old(self).events@, recorded);
        }
        match outcome {
            Some(data) => Ok(data),
            None => Err(TransportError),
        }
    }

    fn drain_nonblocking(&mut self) {
        let event = MockEvent::Drain;
        let ghost recorded = event;
        self.events.push(event);
        proof {
            lemma_events_view_push(old(self).events@, recorded);
        }
    }

    fn set_blocking_mode(&mut self, blocking: bool) -> (r: Result<(), TransportError>) {
        let accepted = !self.fail_set_blocking;
        let event = MockEvent::SetBlocking { blocking, accepted };
        let ghost recorded = event;
        self.events.push(event);
        proof {
            lemma_events_view_push(old(self).events@, recorded);
        }
        if accepted {
            Ok(())
        } else {
            Err(TransportError)
        }
    }

    fn pause(&mut self, _duration_ms: u32) {
    }
}

} // verus!
