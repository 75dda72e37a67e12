//! Protocol core of a typed request/response client for a remote signer.
//!
//! The signer is reached over one long-lived text-message connection. Every
//! capability is a single exchange: one outbound frame that tags the request
//! body with a command identifier, and one inbound text message that holds the
//! reply. This crate decides what goes onto the wire and what each answer of
//! the connection means; it performs no input or output itself. A driver that
//! owns the connection carries out the [`client::Action`]s it is handed and
//! reports back what happened as [`client::Event`]s.

pub mod client;
pub mod error;
pub mod request;

pub use client::{decoded, Action, Client, Event, Incoming, Phase};
pub use error::{ClientError, WebSocketError};
pub use request::{GetRequest, Request};
