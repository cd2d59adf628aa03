//! Decision logic of a monitor that keeps a remote boolean feature switched
//! on: the one-time handshake that yields the credentials, the requests that
//! are sent to the local control interface, and the polling loop itself.
//!
//! Everything here works on plain values. Whoever drives the library performs
//! the operating-system and network actions that it asks for and hands the
//! outcomes back.
//!
//! - [`reader`]: the order of the handshake's steps and of the releases.
//! - [`payload`], [`credentials`]: from the bytes read to port and secret.
//! - [`control`]: the two requests, and what a reply means.
//! - [`monitor`]: the loop of polling, enabling and resting.
//! - [`config`], [`error`], [`decimal`], [`json`]: what the others rest on.

pub mod config;
pub mod control;
pub mod credentials;
pub mod decimal;
pub mod error;
pub mod json;
pub mod monitor;
pub mod payload;
pub mod reader;
