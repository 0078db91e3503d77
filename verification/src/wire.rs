//! The messages that cross the transport, one module for each service contract.

pub mod channel;
pub mod comm;
pub mod common;
pub mod gateway;
pub mod schedule;
pub mod tool;
pub mod ui;
