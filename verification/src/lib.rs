//! Control of wireless gaming headsets that speak HID over USB.
//!
//! The crate holds every decision of the headset driver: which devices are
//! opened and in which order, which packets are sent and what follows from each
//! reply, how the state of a headset changes with the events that it reports,
//! and how that state is shown. Reading from and writing to a device is left to
//! the caller, which performs the steps named here and hands back what came of
//! them.

pub mod cleanup;
pub mod command;
pub mod connect;
pub mod debug;
pub mod device;
pub mod discovery;
pub mod duration;
pub mod errors;
pub mod events;
pub mod laws;
pub mod listing;
pub mod properties;
pub mod query;
pub mod queue;
pub mod reader;
pub mod refresh;
pub mod register;
pub mod search;
pub mod state;
pub mod text;
pub mod transport;
pub mod write;
