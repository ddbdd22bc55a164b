//! Client-side ingestion pipeline: event reading, batch validation,
//! retry planning, batch sending and duplex stream handling, with
//! machine-checked contracts on every function.

pub mod client;
pub mod config;
pub mod events;
pub mod retry;
pub mod sender;
pub mod signing;
pub mod text;
pub mod validation;
pub mod websocket;
pub mod workspace;
