//! A daemon core that moves messages from a queue to an HTTP endpoint.
//!
//! The decisions of the daemon live here as verified state machines: what a
//! worker does with each message it takes, how the dispatcher polls the input
//! queue without running ahead of the workers, and when the readiness gate
//! opens. The program around it performs the calls that the machines ask for
//! and hands back what came of them.

pub mod config;
pub mod delivery;
pub mod dispatcher;
pub mod health;
pub mod logging;
pub mod message;
pub mod webhook;
pub mod worker;

pub use config::{Config, ConfigError};
pub use message::Message;
