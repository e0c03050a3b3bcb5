//! The configuration record that the bridge is started from.

use vstd::prelude::*;

verus! {

/// The direction of a line.
#[derive(Clone, Copy, Debug, PartialEq, Eq, Structural)]
pub enum PinIO {
    /// An input, sampled by the poller.
    Readable,
    /// An output, set by commands.
    Writeable,
}

/// One configured line.
#[derive(Clone, Copy, Debug, PartialEq, Eq, Structural)]
pub struct PinConfig {
    /// The pin identifier.
    pub pin: u8,
    /// The direction.
    pub io: PinIO,
    /// The level the line is taken to have at startup.
    pub state: bool,
}

/// A client to notify when an input changes.
#[derive(Clone, Debug, PartialEq, Eq)]
pub struct OscClient {
    pub host: String,
    pub port: u32,
}

/// The whole configuration.
#[derive(Clone, Debug, PartialEq, Eq)]
pub struct OscConfig {
    /// The address that both sockets are bound to.
    pub host: String,
    /// The port that commands arrive on.
    pub port_in: u32,
    /// The port that notifications leave from.
    pub port_out: u32,
    /// The poll interval in milliseconds.
    pub poll_ms: u64,
    /// The lines, in the order they are polled.
    pub pins: Vec<PinConfig>,
    /// The clients, in the order they are notified.
    pub clients: Vec<OscClient>,
}

} // verus!
