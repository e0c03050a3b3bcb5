//! Bridge between an address-routed datagram protocol and the digital
//! lines of a single-board host: the pin directory, the command router
//! and the two step functions that the listener and the poller run.

pub mod codec;
pub mod config;
pub mod listener;
pub mod notify;
pub mod pins;
pub mod poller;
pub mod router;
