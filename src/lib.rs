//! Connection and correlation core of a gateway for voice-assistant devices.
//!
//! The registry tracks connected devices and their outbound queues, the
//! session machine decides what each device connection does next, and the
//! endpoint bridge keeps the correlation table that maps outstanding
//! requests on the external command target back to the device that asked.
use vstd::prelude::*;

pub mod bridge;
pub mod client;
pub mod config;
pub mod control;
pub mod correlation;
pub mod error;
pub mod messages;
pub mod outbound;
pub mod registry;
pub mod router;
pub mod session;
pub mod store;
pub mod text;
