//! Error taxonomy of an exchange.

use vstd::prelude::*;

verus! {

/// The failure type of the JSON encoder and decoder, carried through unread.
#[verifier::external_type_specification]
#[verifier::external_body]
pub struct ExJsonError(serde_json::Error);

/// The failure type of the WebSocket connection, carried through unread.
#[verifier::external_type_specification]
#[verifier::external_body]
pub struct ExWebSocketError(tokio_tungstenite::tungstenite::error::Error);

/// Web Socket Error
pub type WebSocketError = tokio_tungstenite::tungstenite::error::Error;

/// Client Error
///
/// Every failed exchange yields exactly one of these. None is retried or
/// recovered from inside the client.
#[derive(Debug)]
pub enum ClientError {
    /// Invalid Message Format
    ///
    /// The message received from the connection was not a text message.
    InvalidMessageFormat,
    /// End of Stream Error
    ///
    /// The connection was closed while waiting for the next message.
    EndOfStream,
    /// Serialization Error
    ///
    /// The request could not be encoded, or the reply text could not be decoded
    /// into the expected reply type.
    SerializationError(serde_json::Error),
    /// WebSocket Error
    ///
    /// The connection reported a failure while sending or receiving.
    WebSocket(WebSocketError),
}

impl From<serde_json::Error> for ClientError {
    fn from(err: serde_json::Error) -> (error: ClientError) {
        ClientError::SerializationError(err)
    }
}

impl vstd::std_specs::convert::FromSpecImpl<serde_json::Error> for ClientError {
    open spec fn obeys_from_spec() -> bool {
        true
    }

    open spec fn from_spec(err: serde_json::Error) -> ClientError {
        ClientError::SerializationError(err)
    }
}

impl From<WebSocketError> for ClientError {
    fn from(err: WebSocketError) -> (error: ClientError) {
        ClientError::WebSocket(err)
    }
}

impl vstd::std_specs::convert::FromSpecImpl<WebSocketError> for ClientError {
    open spec fn obeys_from_spec() -> bool {
        true
    }

    open spec fn from_spec(err: WebSocketError) -> ClientError {
        ClientError::WebSocket(err)
    }
}

} // verus!
