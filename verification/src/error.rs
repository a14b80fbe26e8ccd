//! Error taxonomy of the protocol layer.

use vstd::prelude::*;

verus! {

/// An underlying I/O failure while writing to or reading from the report
/// channel. The transport layer surfaces it as-is; it carries no payload
/// because no diagnostic beyond "the channel failed" is available to this
/// layer.
#[derive(Debug)]
pub struct TransportError;

/// Why a device operation failed. Each variant carries only the diagnostic
/// payload it needs, so callers and tests can match exhaustively.
#[derive(Debug)]
pub enum ProtocolError {
    /// The report channel itself failed (write or read error).
    Transport,
    /// Zero bytes arrived within the timeout window; terminal for the call.
    NoResponse,
    /// The response buffer is shorter than required to extract all fields.
    ShortResponse,
    /// The echoed command/status bytes are not the expected ones; carries
    /// the two observed bytes for diagnostics.
    InvalidResponseHeader { cmd: u8, status: u8 },
    /// The acknowledgement's leading byte is not the accepted value; carries
    /// the received buffer for diagnostics.
    UnexpectedAcknowledgement { response: Vec<u8> },
    /// The caller requested a preset index outside the valid range; checked
    /// before any I/O, so it never consumes a device exchange.
    InvalidPresetIndex { index: u8 },
}

} // verus!
