//! The abstraction over a bidirectional, report-based channel with an
//! explicit read timeout and a non-blocking mode.
//!
//! A transport keeps a ghost history of the calls made on it and of their
//! observed outcomes. The engine's contracts are stated over that history:
//! what was sent, in what order, and how the result of an operation is
//! determined by what came back.

use vstd::prelude::*;
use crate::error::TransportError;

verus! {

/// One call on a transport, as recorded in its history.
pub enum TransportEvent {
    /// A report was handed to the channel for sending. `written` is the
    /// reported byte count, or `None` when the write failed.
    Write { report: Seq<u8>, written: Option<nat> },
    /// A bounded-time read was performed. `received` is the bytes that
    /// arrived (empty on timeout), or `None` when the read failed.
    Read { received: Option<Seq<u8>> },
    /// Buffered stale reports were discarded.
    Drain,
    /// The channel's blocking mode was switched. `accepted` says whether the
    /// switch succeeded.
    SetBlocking { blocking: bool, accepted: bool },
}

/// A report channel: send one report, receive one report within a bounded
/// time, independent of report semantics. No internal buffering or retained
/// state beyond the physical channel's own.
pub trait Transport {
    /// The calls made on this transport so far, oldest first, with their
    /// observed outcomes. The default model records nothing; a transport
    /// whose callers want the engine's trace contracts overrides it.
    open spec fn history(&self) -> Seq<TransportEvent> {
        Seq::empty()
    }

    /// Send one report. Partial writes are reported as-is, not retried by
    /// this layer.
    fn write(&mut self, report: &Vec<u8>) -> (r: Result<usize, TransportError>)
        ensures
            final(self).history() == old(self).history().push(TransportEvent::Write {
                report: report@,
                written: match r {
                    Ok(count) => Some(count as nat),
                    Err(_) => None,
                },
            }),
            r matches Ok(count) ==> count <= report@.len(),
    ;

    /// Receive one report of at most `max_len` bytes, waiting at most
    /// `timeout_ms` milliseconds. An empty result means timeout, not an
    /// error; the caller distinguishes "no data" from "channel failed".
    fn read_with_timeout(&mut self, max_len: usize, timeout_ms: u32) -> (r: Result<
        Vec<u8>,
        TransportError,
    >)
        ensures
            final(self).history() == old(self).history().push(TransportEvent::Read {
                received: match r {
                    Ok(data) => Some(data@),
                    Err(_) => None,
                },
            }),
            r matches Ok(data) ==> data@.len() <= max_len,
    ;

    /// Discard any buffered report left over from a prior exchange, until no
    /// data remains. Best-effort by design: there is no error channel,
    /// because draining failures are not actionable.
    fn drain_nonblocking(&mut self)
        ensures
            final(self).history() == old(self).history().push(TransportEvent::Drain),
    ;

    /// Switch the channel between blocking and non-blocking reads.
    fn set_blocking_mode(&mut self, blocking: bool) -> (r: Result<(), TransportError>)
        ensures
            final(self).history() == old(self).history().push(TransportEvent::SetBlocking {
                blocking,
                accepted: r is Ok,
            }),
    ;

    /// Block the calling thread for roughly `duration_ms` milliseconds.
    /// Timing is invisible to the channel model, so the history does not
    /// record it.
    fn pause(&mut self, duration_ms: u32)
        ensures
            final(self).history() == old(self).history(),
    ;
}

} // verus!
