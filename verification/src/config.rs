//! The validated in-memory representation of the device's DPI state.

use vstd::prelude::*;

verus! {

/// The device's DPI state as understood by the host.
///
/// Constructed only by decoding a raw 64-byte configuration report and
/// immutable once constructed; setting a preset does not update a value of
/// this type in place, the caller must re-query to observe the new state.
#[derive(Debug, Clone, Copy)]
pub struct DpiConfig {
    /// The five stored DPI magnitudes, in report order. The protocol imposes
    /// no range check on them beyond representability.
    pub presets: [u16; 5],
    /// Which preset is currently active. The raw field's byte offset is
    /// ambiguous across firmware revisions, so the value is carried as
    /// observed and not assumed to be in range.
    pub current_index: u8,
    /// A bitmask-like block whose bit semantics are device-internal; carried
    /// opaquely.
    pub enabled_flags: [u8; 6],
}

} // verus!
