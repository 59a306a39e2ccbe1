//! The uDMX command protocol: a stateless mapping from the three logical
//! operations to single-byte wire opcodes, and the encoding of each
//! operation's parameters into the control-transfer request that carries it.

use vstd::prelude::*;

use crate::error::UDmxError;

verus! {

/// Number of addressable DMX512 channels; valid channel indices are below it.
pub const MAX_CHANNELS: u16 = 512;

/// The three operations the device understands.
pub enum Command {
    SetSingleChannel,
    SetChannelRange,
    StartBootloader,
}

impl Command {
    /// The fixed one-byte wire opcode of each operation.
    pub open spec fn opcode_spec(&self) -> u8 {
        match self {
            Command::SetSingleChannel => 1,
            Command::SetChannelRange => 2,
            Command::StartBootloader => 0xf8,
        }
    }

    pub fn opcode(&self) -> (r: u8)
        ensures
            r == self.opcode_spec(),
    {
        match self {
            Command::SetSingleChannel => 1,
            Command::SetChannelRange => 2,
            Command::StartBootloader => 0xf8,
        }
    }
}

/// A fully encoded vendor control transfer: the bRequest opcode, the wValue
/// and wIndex parameters, and the data-stage payload. One such value
/// describes exactly one wire transfer.
#[derive(Debug, PartialEq)]
pub struct ControlRequest {
    pub request: u8,
    pub value: u16,
    pub index: u16,
    pub data: Vec<u8>,
}

/// Whether a single channel index is addressable.
pub open spec fn channel_in_range(channel: u16) -> bool {
    channel < MAX_CHANNELS
}

/// Whether a run of `len` values starting at `start` stays inside the
/// addressable channels.
pub open spec fn range_in_bounds(start: u16, len: nat) -> bool {
    start + len <= MAX_CHANNELS
}

/// The index one past the last channel a run would touch, as reported in a
/// range error. Saturates at `u64::MAX`, which no real payload can reach.
pub open spec fn range_end(start: u16, len: nat) -> u64 {
    if start + len <= u64::MAX {
        (start + len) as u64
    } else {
        u64::MAX
    }
}

/// Encodes a SetSingleChannel operation, rejecting out-of-range channels
/// before any transfer can be built: opcode 1, wValue = the value,
/// wIndex = the channel, no payload.
pub fn set_channel_request(channel: u16, value: u8) -> (r: Result<ControlRequest, UDmxError>)
    ensures
        channel_in_range(channel) ==> (r matches Ok(q)
            && q.request == Command::SetSingleChannel.opcode_spec()
            && q.value == value as u16
            && q.index == channel
            && q.data@ =~= Seq::<u8>::empty()),
        !channel_in_range(channel) ==> r == Err::<ControlRequest, UDmxError>(
            UDmxError::ChannelOutOfRange(channel as u64),
        ),
{
    if channel >= MAX_CHANNELS {
        return Err(UDmxError::ChannelOutOfRange(channel as u64));
    }
    Ok(ControlRequest {
        request: Command::SetSingleChannel.opcode(),
        value: value as u16,
        index: channel,
        data: Vec::new(),
    })
}

/// Encodes a SetChannelRange operation. An empty run is a no-op that builds
/// no transfer; a run that would pass the last addressable channel is
/// rejected with the overflowing end index; otherwise the single transfer is
/// opcode 2, wValue = the number of values, wIndex = the starting channel,
/// payload = the values in order.
pub fn set_channels_request(starting_channel: u16, values: &[u8]) -> (r: Result<
    Option<ControlRequest>,
    UDmxError,
>)
    ensures
        values@.len() == 0 ==> (r matches Ok(q) && q is None),
        values@.len() > 0 && range_in_bounds(starting_channel, values@.len()) ==> (r matches Ok(q)
            && q matches Some(req)
            && req.request == Command::SetChannelRange.opcode_spec()
            && req.value as nat == values@.len()
            && req.index == starting_channel
            && req.data@ =~= values@),
        values@.len() > 0 && !range_in_bounds(starting_channel, values@.len()) ==> r == Err::<
            Option<ControlRequest>,
            UDmxError,
        >(UDmxError::ChannelOutOfRange(range_end(starting_channel, values@.len()))),
{
    let len: usize = values.len();
    if len == 0 {
        return Ok(None);
    }
    let start_64: u64 = starting_channel as u64;
    let len_64: u64 = len as u64;
    let end: u64 = if len_64 <= u64::MAX - start_64 {
        start_64 + len_64
    } else {
        u64::MAX
    };
    if end > MAX_CHANNELS as u64 {
        return Err(UDmxError::ChannelOutOfRange(end));
    }
    let mut data: Vec<u8> = Vec::new();
    let mut i: usize = 0;
    while i < len
        invariant
            i <= len,
            len == values@.len(),
            data@ =~= values@.subrange(0, i as int),
        decreases len - i,
    {
        data.push(values[i]);
        i = i + 1;
    }
    Ok(Some(ControlRequest {
        request: Command::SetChannelRange.opcode(),
        value: len as u16,
        index: starting_channel,
        data,
    }))
}

/// Encodes a StartBootloader operation, which takes no parameters at all:
/// opcode 0xF8, wValue = 0, wIndex = 0, no payload.
pub fn start_bootloader_request() -> (r: ControlRequest)
    ensures
        r.request == Command::StartBootloader.opcode_spec(),
        r.value == 0,
        r.index == 0,
        r.data@ =~= Seq::<u8>::empty(),
{
    ControlRequest {
        request: Command::StartBootloader.opcode(),
        value: 0,
        index: 0,
        data: Vec::new(),
    }
}

} // verus!
