//! The command client: one exchange at a time over a connection that a driver
//! owns.
//!
//! The client never touches the connection. It hands the driver an
//! [`Action`], the driver carries it out and reports the [`Event`] that
//! followed, and the client answers with the next action until the exchange
//! has ended in a reply text to decode or in an error.

use vstd::prelude::*;

use crate::error::{ClientError, WebSocketError};
use crate::request::{frame, GetRequest, Request};

verus! {

/// An inbound message, told apart only as far as the protocol looks at it.
#[derive(Debug)]
pub enum Incoming {
    /// A text message and what it holds.
    Text(String),
    /// Any other message: binary data or a control frame.
    Other,
}

/// What an [`Incoming`] message stands for.
pub enum IncomingView {
    Text(Seq<char>),
    Other,
}

impl View for Incoming {
    type V = IncomingView;

    open spec fn view(&self) -> IncomingView {
        match *self {
            Incoming::Text(text) => IncomingView::Text(text@),
            Incoming::Other => IncomingView::Other,
        }
    }
}

/// What the driver reports back after carrying out an [`Action`].
#[derive(Debug)]
pub enum Event {
    /// How sending the frame ended: accepted by the connection, or failed.
    Sent(Result<(), WebSocketError>),
    /// How waiting for the next inbound message ended: with a message, with
    /// `None` at the end of the stream, or with a failure of the connection.
    Received(Result<Option<Incoming>, WebSocketError>),
}

/// What an [`Event`] stands for.
pub enum EventView {
    Sent(Result<(), WebSocketError>),
    Received(Result<Option<IncomingView>, WebSocketError>),
}

impl View for Event {
    type V = EventView;

    open spec fn view(&self) -> EventView {
        match *self {
            Event::Sent(sent) => EventView::Sent(sent),
            Event::Received(received) => EventView::Received(
                match received {
                    Ok(Some(message)) => Ok(Some(message@)),
                    Ok(None) => Ok(None),
                    Err(err) => Err(err),
                },
            ),
        }
    }
}

/// What the client asks of the driver next.
#[derive(Debug)]
pub enum Action {
    /// Send this frame as one text message, then report [`Event::Sent`].
    Send(String),
    /// Wait for the next inbound message, then report [`Event::Received`].
    Receive,
    /// The exchange is over: decode this text as the expected reply.
    Decode(String),
    /// The exchange is over: it failed with this error.
    Fail(ClientError),
}

/// What an [`Action`] stands for.
pub enum ActionView {
    Send(Seq<char>),
    Receive,
    Decode(Seq<char>),
    Fail(ClientError),
}

impl View for Action {
    type V = ActionView;

    open spec fn view(&self) -> ActionView {
        match *self {
            Action::Send(text) => ActionView::Send(text@),
            Action::Receive => ActionView::Receive,
            Action::Decode(text) => ActionView::Decode(text@),
            Action::Fail(err) => ActionView::Fail(err),
        }
    }
}

/// What the encoding of a request body gave, with the text taken as the
/// characters it holds.
pub open spec fn text_of(request: Result<String, serde_json::Error>) -> Result<
    Seq<char>,
    serde_json::Error,
> {
    match request {
        Ok(body) => Ok(body@),
        Err(err) => Err(err),
    }
}

/// Where the client stands in an exchange.
#[derive(Clone, Copy, Debug, PartialEq, Eq, Structural)]
pub enum Phase {
    /// No exchange is in flight.
    Idle,
    /// A frame was handed out and the outcome of sending it is awaited.
    Sending,
    /// The frame was accepted and the reply is awaited.
    Receiving,
}

/// WebSocket Client
///
/// Steers the exchanges on one connection. Between exchanges it holds no
/// state: whatever ends an exchange leaves it [`Phase::Idle`], and every
/// exchange begins the same way whatever came before.
#[derive(Debug)]
pub struct Client {
    phase: Phase,
}

impl View for Client {
    type V = Phase;

    closed spec fn view(&self) -> Phase {
        self.phase
    }
}

impl Client {
    /// How an exchange begins. A request that has its JSON text is framed
    /// under `command` and the frame is to be sent. A request that could not
    /// be encoded ends the exchange before anything is sent.
    pub open spec fn begin(command: Seq<char>, request: Result<Seq<char>, serde_json::Error>) -> (
        Phase,
        ActionView,
    ) {
        match request {
            Ok(body) => (Phase::Sending, ActionView::Send(frame(command, body))),
            Err(err) => (Phase::Idle, ActionView::Fail(ClientError::SerializationError(err))),
        }
    }

    /// How an inbound message, or the lack of one, ends an exchange.
    pub open spec fn conclude(received: Result<Option<IncomingView>, WebSocketError>) -> ActionView {
        match received {
            Ok(Some(IncomingView::Text(text))) => ActionView::Decode(text),
            Ok(Some(IncomingView::Other)) => ActionView::Fail(ClientError::InvalidMessageFormat),
            Ok(None) => ActionView::Fail(ClientError::EndOfStream),
            Err(err) => ActionView::Fail(ClientError::WebSocket(err)),
        }
    }

    /// The next phase and action when `event` is reported in `phase`, or
    /// `None` when the event answers nothing that the client asked for.
    pub open spec fn step(phase: Phase, event: EventView) -> Option<(Phase, ActionView)> {
        match (phase, event) {
            (Phase::Sending, EventView::Sent(Ok(_))) => Some((Phase::Receiving, ActionView::Receive)),
            (Phase::Sending, EventView::Sent(Err(err))) => Some(
                (Phase::Idle, ActionView::Fail(ClientError::WebSocket(err))),
            ),
            (Phase::Receiving, EventView::Received(received)) => Some(
                (Phase::Idle, Client::conclude(received)),
            ),
            _ => None,
        }
    }

    /// A client with no exchange in flight.
    pub fn new() -> (client: Client)
        ensures
            client@ == Phase::Idle,
    {
        Client { phase: Phase::Idle }
    }

    /// Where the client stands.
    pub fn phase(&self) -> (phase: Phase)
        ensures
            phase == self@,
    {
        self.phase
    }

    /// Begins the exchange of `request` under `command`. `request` is what
    /// encoding the request body as JSON gave: its text, or the failure.
    ///
    /// An exchange that was still in flight is abandoned.
    pub fn send(&mut self, command: &'static str, request: Result<String, serde_json::Error>) -> (action: Action)
        ensures
            (final(self)@, action@) == Client::begin(command@, text_of(request)),
    {
        match request {
            Ok(body) => match Request::new(command, body).encode() {
                Ok(text) => {
                    self.phase = Phase::Sending;
                    Action::Send(text)
                },
                Err(err) => {
                    self.phase = Phase::Idle;
                    Action::Fail(err)
                },
            },
            Err(err) => {
                self.phase = Phase::Idle;
                Action::Fail(ClientError::SerializationError(err))
            },
        }
    }

    /// Synchronizes the signer with the ledger state in `request`: begins an
    /// exchange under the command `sync`.
    pub fn sync(&mut self, request: Result<String, serde_json::Error>) -> (action: Action)
        ensures
            (final(self)@, action@) == Client::begin("sync"@, text_of(request)),
    {
        self.send("sync", request)
    }

    /// Has the signer sign the transaction in `request`: begins an exchange
    /// under the command `sign`.
    pub fn sign(&mut self, request: Result<String, serde_json::Error>) -> (action: Action)
        ensures
            (final(self)@, action@) == Client::begin("sign"@, text_of(request)),
    {
        self.send("sign", request)
    }

    /// Asks the signer for its address: begins an exchange under the command
    /// `address`. There is nothing to ask with, so the body is the
    /// [`GetRequest::Get`] marker.
    pub fn address(&mut self) -> (action: Action)
        ensures
            (final(self)@, action@) == Client::begin("address"@, Ok(GetRequest::Get.json())),
    {
        self.send("address", GetRequest::Get.encode())
    }

    /// Asks for the transaction data that `request` names: begins an exchange
    /// under the command `transaction_data`.
    pub fn transaction_data(&mut self, request: Result<String, serde_json::Error>) -> (action: Action)
        ensures
            (final(self)@, action@) == Client::begin("transaction_data"@, text_of(request)),
    {
        self.send("transaction_data", request)
    }

    /// Asks for the identity proof that `request` names: begins an exchange
    /// under the command `identity`.
    pub fn identity_proof(&mut self, request: Result<String, serde_json::Error>) -> (action: Action)
        ensures
            (final(self)@, action@) == Client::begin("identity"@, text_of(request)),
    {
        self.send("identity", request)
    }

    /// Has the signer sign the transaction in `request` and return the
    /// transaction data with the signature: begins an exchange under the
    /// command `sign_with_transaction_data`.
    pub fn sign_with_transaction_data(
        &mut self,
        request: Result<String, serde_json::Error>,
    ) -> (action: Action)
        ensures
            (final(self)@, action@) == Client::begin("sign_with_transaction_data"@, text_of(request)),
    {
        self.send("sign_with_transaction_data", request)
    }

    /// Takes in what the driver reports and says what to do next.
    ///
    /// An event that answers what the client asked for moves the exchange on
    /// as [`Client::step`] says. Any other event is not taken in: the client
    /// stays as it is and the answer is `None`.
    pub fn advance(&mut self, event: Event) -> (action: Option<Action>)
        ensures
            match Client::step(old(self)@, event@) {
                Some((phase, next)) => final(self)@ == phase && action is Some && action->Some_0@ == next,
                None => final(self)@ == old(self)@ && action is None,
            },
    {
        match (self.phase, event) {
            (Phase::Sending, Event::Sent(Ok(_))) => {
                self.phase = Phase::Receiving;
                Some(Action::Receive)
            },
            (Phase::Sending, Event::Sent(Err(err))) => {
                self.phase = Phase::Idle;
                Some(Action::Fail(ClientError::WebSocket(err)))
            },
            (Phase::Receiving, Event::Received(received)) => {
                self.phase = Phase::Idle;
                Some(
                    match received {
                        Ok(Some(Incoming::Text(text))) => Action::Decode(text),
                        Ok(Some(Incoming::Other)) => Action::Fail(ClientError::InvalidMessageFormat),
                        Ok(None) => Action::Fail(ClientError::EndOfStream),
                        Err(err) => Action::Fail(ClientError::WebSocket(err)),
                    },
                )
            },
            _ => None,
        }
    }
}

/// What the caller gets once the reply text went through the decoder: the
/// decoded value as it is, or the decoder's failure as a serialization error.
pub open spec fn reply<D>(decoded: Result<D, serde_json::Error>) -> Result<D, ClientError> {
    match decoded {
        Ok(value) => Ok(value),
        Err(err) => Err(ClientError::SerializationError(err)),
    }
}

/// Ends an exchange that came to [`Action::Decode`]. `outcome` is what
/// decoding the reply text as the expected reply type gave.
pub fn decoded<D>(outcome: Result<D, serde_json::Error>) -> (result: Result<D, ClientError>)
    ensures
        result == reply(outcome),
{
    match outcome {
        Ok(value) => Ok(value),
        Err(err) => Err(ClientError::SerializationError(err)),
    }
}

/// Whether the client stands in `phase` once it has given `action`: it awaits
/// the outcome of what it asked for, or nothing when the exchange is over.
pub open spec fn awaits(phase: Phase, action: ActionView) -> bool {
    match action {
        ActionView::Send(_) => phase == Phase::Sending,
        ActionView::Receive => phase == Phase::Receiving,
        ActionView::Decode(_) | ActionView::Fail(_) => phase == Phase::Idle,
    }
}

/// Whether `event` is the report that `action` asks for.
pub open spec fn answers(event: EventView, action: ActionView) -> bool {
    match (action, event) {
        (ActionView::Send(_), EventView::Sent(_)) => true,
        (ActionView::Receive, EventView::Received(_)) => true,
        _ => false,
    }
}

/// The client always stands where its last action says: however an exchange
/// begins and whatever event is taken in, the phase afterwards is the one
/// that awaits the outcome of the action given.
pub proof fn lemma_phase_follows_action(
    command: Seq<char>,
    request: Result<Seq<char>, serde_json::Error>,
    phase: Phase,
    event: EventView,
)
    ensures
        awaits(Client::begin(command, request).0, Client::begin(command, request).1),
        Client::step(phase, event) matches Some((next, action)) ==> awaits(next, action),
{
}

/// A driver that reports what it was asked for is never turned away, and an
/// event is taken in only if it answers the action that the client waits on.
pub proof fn lemma_answer_is_taken_in(phase: Phase, action: ActionView, event: EventView)
    requires
        awaits(phase, action),
    ensures
        Client::step(phase, event) is Some <==> answers(event, action),
{
}

/// One whole exchange as a driver runs it: it begins the exchange, sends the
/// frame if there is one and reports `sent`, receives if it is asked to and
/// reports `received`. The result is where the client stands at the end and
/// the last action it gave.
pub open spec fn run(
    command: Seq<char>,
    request: Result<Seq<char>, serde_json::Error>,
    sent: Result<(), WebSocketError>,
    received: Result<Option<IncomingView>, WebSocketError>,
) -> (Phase, ActionView) {
    let begun = Client::begin(command, request);
    if begun.1 is Send {
        match Client::step(begun.0, EventView::Sent(sent)) {
            Some((phase, ActionView::Receive)) => match Client::step(phase, EventView::Received(received)) {
                Some(ended) => ended,
                None => (phase, ActionView::Receive),
            },
            Some(ended) => ended,
            None => begun,
        }
    } else {
        begun
    }
}

/// What the caller of an operation gets, when running the exchange as [`run`]
/// does and decoding a reply text gives `decoder` of it. `None` would mean
/// that the exchange is not over when the driver has done its part.
pub open spec fn operation<D>(
    command: Seq<char>,
    request: Result<Seq<char>, serde_json::Error>,
    sent: Result<(), WebSocketError>,
    received: Result<Option<IncomingView>, WebSocketError>,
    decoder: spec_fn(Seq<char>) -> Result<D, serde_json::Error>,
) -> Option<Result<D, ClientError>> {
    match run(command, request, sent, received).1 {
        ActionView::Decode(text) => Some(reply(decoder(text))),
        ActionView::Fail(err) => Some(Err(err)),
        _ => None,
    }
}

/// What an exchange comes to, told from what happened on the way: the reply
/// text, or the first failure.
pub open spec fn outcome(
    request: Result<Seq<char>, serde_json::Error>,
    sent: Result<(), WebSocketError>,
    received: Result<Option<IncomingView>, WebSocketError>,
) -> Result<Seq<char>, ClientError> {
    match (request, sent, received) {
        (Err(err), _, _) => Err(ClientError::SerializationError(err)),
        (Ok(_), Err(err), _) => Err(ClientError::WebSocket(err)),
        (Ok(_), Ok(_), Err(err)) => Err(ClientError::WebSocket(err)),
        (Ok(_), Ok(_), Ok(None)) => Err(ClientError::EndOfStream),
        (Ok(_), Ok(_), Ok(Some(IncomingView::Other))) => Err(ClientError::InvalidMessageFormat),
        (Ok(_), Ok(_), Ok(Some(IncomingView::Text(text)))) => Ok(text),
    }
}

/// Every operation comes to an end with no exchange left in flight, and in
/// one of two ways: with what the decoder makes of the reply text as it
/// arrived, or with the first failure on the way. Nothing is retried.
pub proof fn lemma_operation_result<D>(
    command: Seq<char>,
    request: Result<Seq<char>, serde_json::Error>,
    sent: Result<(), WebSocketError>,
    received: Result<Option<IncomingView>, WebSocketError>,
    decoder: spec_fn(Seq<char>) -> Result<D, serde_json::Error>,
)
    ensures
        run(command, request, sent, received).0 == Phase::Idle,
        operation(command, request, sent, received, decoder) == Some(
            match outcome(request, sent, received) {
                Ok(text) => reply(decoder(text)),
                Err(err) => Err(err),
            },
        ),
{
}

/// Under every command and for every request body: when the connection
/// accepts the frame and answers with a text that decodes to `value`, the
/// operation returns exactly `value`.
pub proof fn lemma_echoed_reply_is_returned<D>(
    command: Seq<char>,
    body: Seq<char>,
    text: Seq<char>,
    decoder: spec_fn(Seq<char>) -> Result<D, serde_json::Error>,
    value: D,
)
    requires
        decoder(text) == Ok::<D, serde_json::Error>(value),
    ensures
        operation(command, Ok(body), Ok(()), Ok(Some(IncomingView::Text(text))), decoder) == Some(
            Ok::<D, ClientError>(value),
        ),
{
}

/// Under every command and for every request body: when the connection
/// accepts the frame and answers with a message that is not text, the
/// operation fails with `InvalidMessageFormat`, whatever the decoder would do.
pub proof fn lemma_non_text_reply_is_refused<D>(
    command: Seq<char>,
    body: Seq<char>,
    decoder: spec_fn(Seq<char>) -> Result<D, serde_json::Error>,
)
    ensures
        operation(command, Ok(body), Ok(()), Ok(Some(IncomingView::Other)), decoder) == Some(
            Err::<D, ClientError>(ClientError::InvalidMessageFormat),
        ),
{
}

/// Under every command and for every request body: when the connection
/// accepts the frame and then closes without a message, the operation fails
/// with `EndOfStream`.
pub proof fn lemma_closed_connection_ends_operation<D>(
    command: Seq<char>,
    body: Seq<char>,
    decoder: spec_fn(Seq<char>) -> Result<D, serde_json::Error>,
)
    ensures
        operation(command, Ok(body), Ok(()), Ok(None), decoder) == Some(
            Err::<D, ClientError>(ClientError::EndOfStream),
        ),
{
}

/// Under every command and for every request body: when the connection
/// accepts the frame and answers with a text that the decoder refuses, the
/// operation fails with a serialization error that holds the decoder's
/// failure. It never returns a value.
pub proof fn lemma_undecodable_reply_is_an_error<D>(
    command: Seq<char>,
    body: Seq<char>,
    text: Seq<char>,
    decoder: spec_fn(Seq<char>) -> Result<D, serde_json::Error>,
    err: serde_json::Error,
)
    requires
        decoder(text) == Err::<D, serde_json::Error>(err),
    ensures
        operation(command, Ok(body), Ok(()), Ok(Some(IncomingView::Text(text))), decoder) == Some(
            Err::<D, ClientError>(ClientError::SerializationError(err)),
        ),
{
}

} // verus!
