//! Building, decoding and routing MIDI messages, and picking devices
//! out of the driver's list.

pub mod device;
pub mod message;
pub mod options;
