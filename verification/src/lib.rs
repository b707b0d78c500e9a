//! Asynchronous load management for a Flash/SWF player runtime.
//!
//! The crate holds the bookkeeping and the decisions of the load manager:
//! which loads are in flight, what state each one is in, and which
//! script-visible steps the host has to carry out when a fetch resolves or a
//! frame ticks. Talking to the network, the script engines and the display
//! tree is the host's business; it hands plain values in and performs the
//! steps that come back.

pub mod action;
pub mod arena;
pub mod content;
pub mod data;
pub mod der;
pub mod laws;
pub mod manager;
pub mod movie;
pub mod q_name;
pub mod record;
pub mod sweep;
