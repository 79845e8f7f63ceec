use vstd::prelude::*;

verus! {

/// Channel used when none is given.
pub const DEFAULT_CHANNEL: u8 = 0;

/// How long a triggered note is held before its note-off, in milliseconds.
pub const TRIG_HOLD_MS: u64 = 40;

/// Pause between two reads of an input port while streaming, in milliseconds.
pub const POLL_INTERVAL_MS: u64 = 10;

/// Number of events a port buffers, and the most that one read returns.
pub const PORT_BUFFER_LEN: usize = 1024;

/// Where an outgoing message goes: a device id and a channel, each optional.
#[derive(PartialEq, Eq, Structural, Clone, Copy, Debug)]
pub struct MessageOptions {
    pub device: Option<i32>,
    pub channel: Option<u8>,
}

impl MessageOptions {
    /// The device to send to: the one given, else `default_device`.
    pub fn device_or(&self, default_device: i32) -> (r: i32)
        ensures
            r == self.device.unwrap_or(default_device),
    {
        self.device.unwrap_or(default_device)
    }

    /// The channel to send on: the one given, else channel 0.
    pub fn channel_or_default(&self) -> (r: u8)
        ensures
            r == self.channel.unwrap_or(DEFAULT_CHANNEL),
    {
        self.channel.unwrap_or(DEFAULT_CHANNEL)
    }
}

} // verus!
