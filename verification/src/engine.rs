//! The device protocol engine: sequences transport and codec calls into the
//! device operations, applying the retry workaround and stale-data draining.
//!
//! Every operation's contract is stated over the transport's event history:
//! exactly which reports are sent, in which order, and how the operation's
//! result is determined by what the channel handed back.

use vstd::prelude::*;
use crate::codec::CONFIG_REPORT_LEN;
use crate::codec::ack_spec;
use crate::codec::decode_config_response;
use crate::codec::decode_config_spec;
use crate::codec::decode_set_preset_ack;
use crate::codec::device_info_report;
use crate::codec::encode_device_info_command;
use crate::codec::encode_query_command;
use crate::codec::encode_set_preset_command;
use crate::codec::query_report;
use crate::codec::set_preset_report;
use crate::config::DpiConfig;
use crate::error::ProtocolError;
use crate::transport::Transport;
use crate::transport::TransportEvent;

verus! {

/// How long one configuration read may wait for the device.
pub const QUERY_READ_TIMEOUT_MS: u32 = 2000;

/// How long one acknowledgement or device-info read may wait.
pub const SHORT_READ_TIMEOUT_MS: u32 = 1000;

/// The fixed delay between the repeated query sends of the firmware
/// workaround.
pub const QUERY_RESEND_DELAY_MS: u32 = 100;

/// The most bytes a set-preset acknowledgement read accepts.
pub const ACK_REPORT_LEN: usize = 20;

/// The most bytes a device-info read accepts.
pub const INFO_REPORT_LEN: usize = 21;

/// The event is a send of the query command, whatever the write's outcome.
pub open spec fn is_query_write(e: TransportEvent) -> bool {
    e matches TransportEvent::Write { report, .. } && report == query_report()
}

/// How the query operation's result is determined by what its one read
/// yielded: a failed read is a transport error, zero bytes are terminal
/// `NoResponse`, and anything else decodes as a configuration response.
pub open spec fn query_read_result(
    received: Option<Seq<u8>>,
    r: Result<DpiConfig, ProtocolError>,
) -> bool {
    match received {
        None => r matches Err(ProtocolError::Transport),
        Some(data) => if data.len() == 0 {
            r matches Err(ProtocolError::NoResponse)
        } else {
            decode_config_spec(data, r)
        },
    }
}

/// The complete trace of one query operation on a transport whose history
/// grew from `h0` to `h1`: exactly three sends of the identical query
/// command (their outcomes deliberately ignored, per the firmware
/// workaround), then exactly one read whose outcome determines the result.
pub open spec fn query_trace(
    h0: Seq<TransportEvent>,
    h1: Seq<TransportEvent>,
    r: Result<DpiConfig, ProtocolError>,
) -> bool {
    &&& h1.len() == h0.len() + 4
    &&& h1.subrange(0, h0.len() as int) == h0
    &&& is_query_write(h1[h0.len() as int])
    &&& is_query_write(h1[h0.len() as int + 1])
    &&& is_query_write(h1[h0.len() as int + 2])
    &&& (h1[h0.len() as int + 3] matches TransportEvent::Read { received }
        && query_read_result(received, r))
}

/// How the set-preset operation's result is determined by what its one read
/// yielded.
pub open spec fn ack_read_result(
    received: Option<Seq<u8>>,
    r: Result<(), ProtocolError>,
) -> bool {
    match received {
        None => r matches Err(ProtocolError::Transport),
        Some(data) => ack_spec(data, r),
    }
}

/// The events a set-preset operation with a valid index appends to the
/// history, and how far it gets: it stops at the first failing transport
/// call, and every failure it reports is the recorded outcome of the last
/// event.
pub open spec fn set_preset_suffix(
    sfx: Seq<TransportEvent>,
    index: u8,
    r: Result<(), ProtocolError>,
) -> bool {
    ||| {
        &&& sfx == seq![TransportEvent::SetBlocking { blocking: false, accepted: false }]
        &&& r matches Err(ProtocolError::Transport)
    }
    ||| {
        &&& sfx.len() == 3
        &&& sfx[0] == (TransportEvent::SetBlocking { blocking: false, accepted: true })
        &&& sfx[1] == TransportEvent::Drain
        &&& (sfx[2] matches TransportEvent::Write { report, written }
            && report == set_preset_report(index) && written is None)
        &&& r matches Err(ProtocolError::Transport)
    }
    ||| {
        &&& sfx.len() == 4
        &&& sfx[0] == (TransportEvent::SetBlocking { blocking: false, accepted: true })
        &&& sfx[1] == TransportEvent::Drain
        &&& (sfx[2] matches TransportEvent::Write { report, written }
            && report == set_preset_report(index) && written is Some)
        &&& (sfx[3] matches TransportEvent::Read { received } && ack_read_result(received, r))
    }
}

/// The complete trace of one set-preset operation: an out-of-range index
/// fails with `InvalidPresetIndex` before any transport call, and a valid
/// one switches the channel to non-blocking, drains stale data, sends the
/// command once, and classifies the one acknowledgement read.
pub open spec fn set_preset_trace(
    h0: Seq<TransportEvent>,
    h1: Seq<TransportEvent>,
    index: u8,
    r: Result<(), ProtocolError>,
) -> bool {
    if index > 4 {
        &&& h1 == h0
        &&& (r matches Err(ProtocolError::InvalidPresetIndex { index: rejected })
            && rejected == index)
    } else {
        &&& h1.len() >= h0.len()
        &&& h1.subrange(0, h0.len() as int) == h0
        &&& set_preset_suffix(h1.subrange(h0.len() as int, h1.len() as int), index, r)
    }
}

/// The complete trace of one device-info request: one send, and unless a
/// transport call fails, one read whose payload is ignored.
pub open spec fn info_trace(
    h0: Seq<TransportEvent>,
    h1: Seq<TransportEvent>,
    r: Result<(), ProtocolError>,
) -> bool {
    ||| {
        &&& h1.len() == h0.len() + 1
        &&& h1.subrange(0, h0.len() as int) == h0
        &&& (h1[h0.len() as int] matches TransportEvent::Write { report, written }
            && report == device_info_report() && written is None)
        &&& r matches Err(ProtocolError::Transport)
    }
    ||| {
        &&& h1.len() == h0.len() + 2
        &&& h1.subrange(0, h0.len() as int) == h0
        &&& (h1[h0.len() as int] matches TransportEvent::Write { report, written }
            && report == device_info_report() && written is Some)
        &&& (h1[h0.len() as int + 1] matches TransportEvent::Read { received }
            && match received {
                None => r matches Err(ProtocolError::Transport),
                Some(data) => r is Ok,
            })
    }
}

/// The host side of one device: owns the report channel exclusively and
/// drives the single-shot, stateless request/response exchanges.
pub struct MouseDevice<T: Transport> {
    /// The report channel to the device.
    pub transport: T,
}

impl<T: Transport> MouseDevice<T> {
    /// Take exclusive ownership of an open report channel.
    pub fn new(transport: T) -> (r: MouseDevice<T>)
        ensures
            r.transport == transport,
    {
        MouseDevice { transport }
    }

    /// Read the device's DPI preset table and active index.
    ///
    /// Firmware workaround: the identical command buffer is sent three times
    /// with a fixed short delay between sends, because the device is
    /// observed to silently drop single requests. All three sends happen
    /// regardless of intermediate outcomes — this is best-effort mitigation,
    /// not retry-on-failure, and the one read decides the result.
    pub fn get_dpi_config(&mut self) -> (r: Result<DpiConfig, ProtocolError>)
        ensures
            query_trace(old(self).transport.history(), final(self).transport.history(), r),
    {
        let cmd = encode_query_command();
        let _ = self.transport.write(&cmd);
        self.transport.pause(QUERY_RESEND_DELAY_MS);
        let _ = self.transport.write(&cmd);
        self.transport.pause(QUERY_RESEND_DELAY_MS);
        let _ = self.transport.write(&cmd);
        let outcome = self.transport.read_with_timeout(CONFIG_REPORT_LEN, QUERY_READ_TIMEOUT_MS);
        let r = match outcome {
            Err(_) => Err(ProtocolError::Transport),
            Ok(data) => {
                if data.len() == 0 {
                    Err(ProtocolError::NoResponse)
                } else {
                    decode_config_response(data)
                }
            },
        };
        proof {
            let h0 = old(self).transport.history();
            let h1 = self.transport.history();
            assert(h1.subrange(0, h0.len() as int) =~= h0);
        }
        r
    }

    /// Request the device's info report; its payload is not interpreted.
    pub fn get_device_info(&mut self) -> (r: Result<(), ProtocolError>)
        ensures
            info_trace(old(self).transport.history(), final(self).transport.history(), r),
    {
        let cmd = encode_device_info_command();
        match self.transport.write(&cmd) {
            Err(_) => {
                proof {
                    let h0 = old(self).transport.history();
                    let h1 = self.transport.history();
                    assert(h1.subrange(0, h0.len() as int) =~= h0);
                }
                return Err(ProtocolError::Transport);
            },
            Ok(_) => {},
        }
        let r = match self.transport.read_with_timeout(INFO_REPORT_LEN, SHORT_READ_TIMEOUT_MS) {
            Err(_) => Err(ProtocolError::Transport),
            Ok(_) => Ok(()),
        };
        proof {
            let h0 = old(self).transport.history();
            let h1 = self.transport.history();
            assert(h1.subrange(0, h0.len() as int) =~= h0);
        }
        r
    }

    /// Make the preset at `index` active.
    ///
    /// An index outside `0..=4` fails fast with `InvalidPresetIndex` and
    /// never touches the transport. Otherwise the channel is switched to
    /// non-blocking and drained first, because reports carry no correlation
    /// identifiers and stale data would be misread as this command's
    /// acknowledgement. The command is sent once; on success, re-query to
    /// observe the new state.
    pub fn set_active_dpi_preset(&mut self, index: u8) -> (r: Result<(), ProtocolError>)
        ensures
            set_preset_trace(
                old(self).transport.history(),
                final(self).transport.history(),
                index,
                r,
            ),
    {
        let cmd = match encode_set_preset_command(index) {
            Err(e) => {
                return Err(e);
            },
            Ok(cmd) => cmd,
        };
        match self.transport.set_blocking_mode(false) {
            Err(_) => {
                proof {
                    let h0 = old(self).transport.history();
                    let h1 = self.transport.history();
                    assert(h1.subrange(0, h0.len() as int) =~= h0);
                    assert(h1.subrange(h0.len() as int, h1.len() as int) =~= seq![
                        TransportEvent::SetBlocking { blocking: false, accepted: false },
                    ]);
                }
                return Err(ProtocolError::Transport);
            },
            Ok(_) => {},
        }
        self.transport.drain_nonblocking();
        match self.transport.write(&cmd) {
            Err(_) => {
                proof {
                    let h0 = old(self).transport.history();
                    let h1 = self.transport.history();
                    assert(h1.subrange(0, h0.len() as int) =~= h0);
                    assert(h1.subrange(h0.len() as int, h1.len() as int).len() == 3);
                }
                return Err(ProtocolError::Transport);
            },
            Ok(_) => {},
        }
        let r = match self.transport.read_with_timeout(ACK_REPORT_LEN, SHORT_READ_TIMEOUT_MS) {
            Err(_) => Err(ProtocolError::Transport),
            Ok(data) => decode_set_preset_ack(data),
        };
        proof {
            let h0 = old(self).transport.history();
            let h1 = self.transport.history();
            assert(h1.subrange(0, h0.len() as int) =~= h0);
            assert(h1.subrange(h0.len() as int, h1.len() as int).len() == 4);
        }
        r
    }
}

} // verus!
