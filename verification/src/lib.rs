//! Core logic of a CAN bus node that drives relays and rollershutters.
//!
//! The crate covers the address codec for the 29-bit extended identifier,
//! the hardware filter derivation, the frame dispatcher, the bounded command
//! channel, the relay scheduling engine and the output driver. Hardware
//! access (bus, timers, I2C) stays outside; every function here is pure
//! logic over plain values and is verified.

pub mod can_id;
pub mod channel;
pub mod config;
pub mod dispatch;
pub mod device_message;
pub mod error;
pub mod filter;
pub mod relais;
pub mod relais_manager;
pub mod relais_message;
pub mod update;
