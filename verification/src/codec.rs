//! Bidirectional mapping between protocol intents and fixed-size byte
//! buffers, with no I/O.
//!
//! All multi-byte integers on the wire are little-endian and all buffers are
//! zero-padded to their fixed length.

use vstd::prelude::*;
use crate::config::DpiConfig;
use crate::error::ProtocolError;

verus! {

/// The fixed size of a configuration report in either direction.
pub const CONFIG_REPORT_LEN: usize = 64;

/// The fixed size of a set-preset request report.
pub const SET_PRESET_REPORT_LEN: usize = 21;

/// A configuration response must hold at least this many bytes for all
/// fields to be extracted.
pub const CONFIG_RESPONSE_MIN_LEN: usize = 37;

/// Presets a device can hold; indices range over `0..PRESET_COUNT`.
pub const PRESET_COUNT: usize = 5;

/// The "query configuration" request: report id `0xB3`, command bytes
/// `[0x06, 0x00]`, zero-padded to 64 bytes.
pub open spec fn query_report() -> Seq<u8> {
    Seq::new(64, |i: int|
        if i == 0 { 0xB3u8 }
        else if i == 1 { 0x06u8 }
        else { 0x00u8 })
}

/// The "query device info" request: report id `0xB5`, opcode `0x02`,
/// zero-padded to 21 bytes.
pub open spec fn device_info_report() -> Seq<u8> {
    Seq::new(21, |i: int|
        if i == 0 { 0xB5u8 }
        else if i == 1 { 0x02u8 }
        else { 0x00u8 })
}

/// The device-specific static payload inside a set-preset request. It is
/// unrelated to preset selection and treated as an opaque constant.
pub open spec fn static_payload() -> Seq<u8> {
    seq![0x90u8, 0x01u8, 0xB0u8, 0x04u8, 0x78u8, 0x05u8, 0xD0u8, 0x07u8, 0x88u8, 0x13u8, 0x05u8]
}

/// The "set active preset" request: report id `0xB5`, opcode `0x40`, the
/// target index repeated three times, the static payload, zero-padded to 21
/// bytes.
pub open spec fn set_preset_report(index: u8) -> Seq<u8> {
    Seq::new(21, |i: int|
        if i == 0 { 0xB5u8 }
        else if i == 1 { 0x40u8 }
        else if 2 <= i < 5 { index }
        else if 5 <= i < 16 { static_payload()[i - 5] }
        else { 0x00u8 })
}

/// The little-endian 16-bit preset value stored at offsets
/// `(6 + 2 * i, 7 + 2 * i)` of a configuration response.
pub open spec fn preset_value(d: Seq<u8>, i: int) -> u16 {
    (d[6 + 2 * i] + 256 * d[7 + 2 * i]) as u16
}

/// `c` is exactly the configuration encoded in the response bytes `d`:
/// the five little-endian presets at offsets 6..16, the active index at
/// offset 4, and the opaque flag block at offsets 31..37.
pub open spec fn config_matches(c: DpiConfig, d: Seq<u8>) -> bool {
    &&& forall|i: int| 0 <= i < 5 ==> #[trigger] c.presets@[i] == preset_value(d, i)
    &&& c.current_index == d[4]
    &&& c.enabled_flags@ == d.subrange(31, 37)
}

/// What decoding the response bytes `d` must yield: `ShortResponse` for a
/// buffer too short to extract all fields, `InvalidResponseHeader` carrying
/// the observed bytes when the echoed command/status bytes are wrong, and
/// otherwise exactly the encoded configuration.
pub open spec fn decode_config_spec(d: Seq<u8>, r: Result<DpiConfig, ProtocolError>) -> bool {
    if d.len() < 37 {
        r matches Err(ProtocolError::ShortResponse)
    } else if d[1] != 0x06 || d[2] != 0x00 {
        r matches Err(ProtocolError::InvalidResponseHeader { cmd, status })
            && cmd == d[1] && status == d[2]
    } else {
        r matches Ok(c) && config_matches(c, d)
    }
}

/// What classifying an acknowledgement buffer `d` must yield: `NoResponse`
/// when nothing was read, acceptance exactly when the leading byte is
/// `0xB6`, and `UnexpectedAcknowledgement` carrying the buffer otherwise.
pub open spec fn ack_spec(d: Seq<u8>, r: Result<(), ProtocolError>) -> bool {
    if d.len() == 0 {
        r matches Err(ProtocolError::NoResponse)
    } else if d[0] == 0xB6 {
        r is Ok
    } else {
        r matches Err(ProtocolError::UnexpectedAcknowledgement { response })
            && response@ == d
    }
}

/// Encoding the query command always yields the 64-byte report with
/// `[0] == 0xB3`, `[1] == 0x06`, `[2] == 0x00` and every remaining byte
/// zero.
pub proof fn lemma_query_report_shape()
    ensures
        query_report().len() == 64,
        query_report()[0] == 0xB3,
        query_report()[1] == 0x06,
        query_report()[2] == 0x00,
        forall|i: int| 3 <= i < 64 ==> query_report()[i] == 0x00,
{
}

/// Encode the "query configuration" command.
pub fn encode_query_command() -> (r: Vec<u8>)
    ensures
        r@ == query_report(),
{
    let mut cmd: Vec<u8> = Vec::new();
    cmd.push(0xB3);
    cmd.push(0x06);
    cmd.push(0x00);
    while cmd.len() < CONFIG_REPORT_LEN
        invariant
            3 <= cmd@.len() <= 64,
            forall|i: int| 0 <= i < cmd@.len() ==> cmd@[i] == query_report()[i],
        decreases 64 - cmd@.len(),
    {
        cmd.push(0x00);
    }
    proof {
        assert(cmd@ =~= query_report());
    }
    cmd
}

/// Encode the "query device info" command.
pub fn encode_device_info_command() -> (r: Vec<u8>)
    ensures
        r@ == device_info_report(),
{
    let mut cmd: Vec<u8> = Vec::new();
    cmd.push(0xB5);
    cmd.push(0x02);
    while cmd.len() < SET_PRESET_REPORT_LEN
        invariant
            2 <= cmd@.len() <= 21,
            forall|i: int| 0 <= i < cmd@.len() ==> cmd@[i] == device_info_report()[i],
        decreases 21 - cmd@.len(),
    {
        cmd.push(0x00);
    }
    proof {
        assert(cmd@ =~= device_info_report());
    }
    cmd
}

/// Encode the "set active preset" command, or fail with
/// `InvalidPresetIndex` before any I/O when the index is out of range.
pub fn encode_set_preset_command(index: u8) -> (r: Result<Vec<u8>, ProtocolError>)
    ensures
        index <= 4 ==> (r matches Ok(cmd) && cmd@ == set_preset_report(index)),
        index > 4 ==> (r matches Err(ProtocolError::InvalidPresetIndex { index: rejected })
            && rejected == index),
{
    if index as usize >= PRESET_COUNT {
        return Err(ProtocolError::InvalidPresetIndex { index });
    }
    let mut cmd: Vec<u8> = Vec::new();
    cmd.push(0xB5);
    cmd.push(0x40);
    cmd.push(index);
    cmd.push(index);
    cmd.push(index);
    cmd.push(0x90);
    cmd.push(0x01);
    cmd.push(0xB0);
    cmd.push(0x04);
    cmd.push(0x78);
    cmd.push(0x05);
    cmd.push(0xD0);
    cmd.push(0x07);
    cmd.push(0x88);
    cmd.push(0x13);
    cmd.push(0x05);
    while cmd.len() < SET_PRESET_REPORT_LEN
        invariant
            16 <= cmd@.len() <= 21,
            forall|i: int| 0 <= i < cmd@.len() ==> cmd@[i] == set_preset_report(index)[i],
        decreases 21 - cmd@.len(),
    {
        cmd.push(0x00);
    }
    proof {
        assert(cmd@ =~= set_preset_report(index));
    }
    Ok(cmd)
}

/// Read the little-endian 16-bit value stored as `(lo, hi)`.
fn u16_from_le_pair(lo: u8, hi: u8) -> (r: u16)
    ensures
        r == lo + 256 * hi,
{
    lo as u16 + 256 * (hi as u16)
}

/// Decode a configuration response into the validated model.
///
/// The active-preset index is read from byte offset 4, the offset the
/// firmware this driver was written against uses; see `DpiConfig`.
pub fn decode_config_response(data: Vec<u8>) -> (r: Result<DpiConfig, ProtocolError>)
    ensures
        decode_config_spec(data@, r),
{
    if data.len() < CONFIG_RESPONSE_MIN_LEN {
        return Err(ProtocolError::ShortResponse);
    }
    if data[1] != 0x06 || data[2] != 0x00 {
        return Err(ProtocolError::InvalidResponseHeader { cmd: data[1], status: data[2] });
    }
    let presets: [u16; 5] = [
        u16_from_le_pair(data[6], data[7]),
        u16_from_le_pair(data[8], data[9]),
        u16_from_le_pair(data[10], data[11]),
        u16_from_le_pair(data[12], data[13]),
        u16_from_le_pair(data[14], data[15]),
    ];
    let enabled_flags: [u8; 6] = [data[31], data[32], data[33], data[34], data[35], data[36]];
    let config = DpiConfig {
        presets,
        current_index: data[4],
        enabled_flags,
    };
    proof {
        assert(config.enabled_flags@ =~= data@.subrange(31, 37));
    }
    Ok(config)
}

/// Classify a set-preset acknowledgement.
pub fn decode_set_preset_ack(data: Vec<u8>) -> (r: Result<(), ProtocolError>)
    ensures
        ack_spec(data@, r),
{
    if data.len() == 0 {
        return Err(ProtocolError::NoResponse);
    }
    if data[0] == 0xB6 {
        Ok(())
    } else {
        Err(ProtocolError::UnexpectedAcknowledgement { response: data })
    }
}

} // verus!
