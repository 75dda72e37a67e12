use std::collections::VecDeque;

use serde_json::Value;
use signer_client::{
    decoded, Action, Client, ClientError, Event, GetRequest, Incoming, Phase, WebSocketError,
};
use tokio_tungstenite::tungstenite;

/// A connection that answers from a script and keeps what was sent.
struct FakeChannel {
    sent: Vec<String>,
    send_outcomes: VecDeque<Result<(), WebSocketError>>,
    inbound: VecDeque<Result<Option<Incoming>, WebSocketError>>,
    receives: usize,
}

impl FakeChannel {
    fn new() -> Self {
        FakeChannel {
            sent: Vec::new(),
            send_outcomes: VecDeque::new(),
            inbound: VecDeque::new(),
            receives: 0,
        }
    }

    fn replying(inbound: Result<Option<Incoming>, WebSocketError>) -> Self {
        let mut channel = FakeChannel::new();
        channel.inbound.push_back(inbound);
        channel
    }

    fn replying_text(text: &str) -> Self {
        FakeChannel::replying(Ok(Some(Incoming::Text(text.to_string()))))
    }

    fn send(&mut self, frame: String) -> Result<(), WebSocketError> {
        self.sent.push(frame);
        self.send_outcomes.pop_front().unwrap_or(Ok(()))
    }

    fn receive(&mut self) -> Result<Option<Incoming>, WebSocketError> {
        self.receives += 1;
        self.inbound.pop_front().expect("the script has an answer")
    }
}

fn drive(client: &mut Client, channel: &mut FakeChannel, first: Action) -> Result<String, ClientError> {
    let mut action = first;
    loop {
        let event = match action {
            Action::Send(frame) => Event::Sent(channel.send(frame)),
            Action::Receive => Event::Received(channel.receive()),
            Action::Decode(text) => return Ok(text),
            Action::Fail(err) => return Err(err),
        };
        action = client
            .advance(event)
            .expect("the event answers what the client asked for");
    }
}

fn json_failure() -> serde_json::Error {
    serde_json::from_str::<u8>("not a number").unwrap_err()
}

fn body(text: &str) -> Result<String, serde_json::Error> {
    Ok(text.to_string())
}

/// Begins the `index`th of the six operations with `request` as its body.
fn begin_operation(client: &mut Client, index: usize, request: Result<String, serde_json::Error>) -> Action {
    match index {
        0 => client.sync(request),
        1 => client.sign(request),
        2 => client.address(),
        3 => client.transaction_data(request),
        4 => client.identity_proof(request),
        5 => client.sign_with_transaction_data(request),
        _ => unreachable!(),
    }
}

const COMMANDS: [&str; 6] = [
    "sync",
    "sign",
    "address",
    "transaction_data",
    "identity",
    "sign_with_transaction_data",
];

fn command_and_body(frame: &str) -> (String, Value) {
    let parsed: Value = serde_json::from_str(frame).expect("a frame is JSON");
    let object = parsed.as_object().expect("a frame is an object");
    assert_eq!(object.len(), 2);
    (
        object["command"].as_str().expect("the command is a string").to_string(),
        object["request"].clone(),
    )
}

#[test]
fn new_client_is_idle() {
    assert_eq!(Client::new().phase(), Phase::Idle);
}

#[test]
fn every_operation_returns_the_echoed_reply() {
    let reply = Value::from(vec![Value::from(1), Value::from("two"), Value::Null]);
    let reply_text = serde_json::to_string(&reply).unwrap();
    for index in 0..6 {
        let mut client = Client::new();
        let mut channel = FakeChannel::replying_text(&reply_text);
        let first = begin_operation(&mut client, index, body("{\"n\":1}"));
        let text = drive(&mut client, &mut channel, first).expect("the exchange succeeds");
        assert_eq!(text, reply_text);
        let value: Value = decoded(serde_json::from_str(&text)).expect("the reply decodes");
        assert_eq!(value, reply);
        assert_eq!(client.phase(), Phase::Idle);
        assert_eq!(channel.sent.len(), 1);
        assert_eq!(channel.receives, 1);
    }
}

#[test]
fn every_operation_sends_its_own_command() {
    for index in 0..6 {
        let mut client = Client::new();
        let mut channel = FakeChannel::replying_text("null");
        let first = begin_operation(&mut client, index, body("{\"n\":1}"));
        drive(&mut client, &mut channel, first).expect("the exchange succeeds");
        let (command, _) = command_and_body(&channel.sent[0]);
        assert_eq!(command, COMMANDS[index]);
    }
}

#[test]
fn every_operation_refuses_a_message_that_is_not_text() {
    for index in 0..6 {
        let mut client = Client::new();
        let mut channel = FakeChannel::replying(Ok(Some(Incoming::Other)));
        let first = begin_operation(&mut client, index, body("1"));
        let result = drive(&mut client, &mut channel, first);
        assert!(matches!(result, Err(ClientError::InvalidMessageFormat)));
        assert_eq!(client.phase(), Phase::Idle);
    }
}

#[test]
fn every_operation_fails_when_the_connection_closes() {
    for index in 0..6 {
        let mut client = Client::new();
        let mut channel = FakeChannel::replying(Ok(None));
        let first = begin_operation(&mut client, index, body("1"));
        let result = drive(&mut client, &mut channel, first);
        assert!(matches!(result, Err(ClientError::EndOfStream)));
        assert_eq!(channel.sent.len(), 1);
        assert_eq!(client.phase(), Phase::Idle);
    }
}

#[test]
fn every_operation_fails_on_a_reply_that_does_not_decode() {
    for index in 0..6 {
        let mut client = Client::new();
        let mut channel = FakeChannel::replying_text("{\"unexpected\":true}");
        let first = begin_operation(&mut client, index, body("1"));
        let text = drive(&mut client, &mut channel, first).expect("the text arrives");
        let result: Result<u64, ClientError> = decoded(serde_json::from_str(&text));
        assert!(matches!(result, Err(ClientError::SerializationError(_))));
    }
}

#[test]
fn decoded_passes_a_value_through() {
    let result = decoded::<Vec<u8>>(Ok(vec![1, 2, 3]));
    assert_eq!(result.unwrap(), vec![1, 2, 3]);
    let absent = decoded::<Option<String>>(serde_json::from_str("null"));
    assert_eq!(absent.unwrap(), None);
}

#[test]
fn decoded_keeps_the_decoder_failure() {
    let failure = json_failure();
    let message = failure.to_string();
    match decoded::<u8>(Err(failure)) {
        Err(ClientError::SerializationError(err)) => assert_eq!(err.to_string(), message),
        other => panic!("unexpected result: {:?}", other),
    }
}

#[test]
fn address_sends_the_get_marker_and_returns_none_for_null() {
    let mut client = Client::new();
    let mut channel = FakeChannel::replying_text("null");
    let first = client.address();
    assert_eq!(client.phase(), Phase::Sending);
    let text = drive(&mut client, &mut channel, first).expect("the exchange succeeds");
    assert_eq!(channel.sent, vec!["{\"command\":\"address\",\"request\":\"Get\"}".to_string()]);
    let (command, request) = command_and_body(&channel.sent[0]);
    assert_eq!(command, "address");
    assert_eq!(request, Value::from("Get"));
    assert_eq!(
        serde_json::to_string(&request).unwrap(),
        GetRequest::Get.encode().unwrap()
    );
    let address: Option<String> = decoded(serde_json::from_str(&text)).expect("null decodes");
    assert_eq!(address, None);
}

#[test]
fn sync_then_sign_are_independent_exchanges() {
    let mut client = Client::new();
    let mut channel = FakeChannel::new();
    channel.inbound.push_back(Ok(Some(Incoming::Text("{\"synced\":3}".to_string()))));
    channel.inbound.push_back(Ok(Some(Incoming::Text("{\"signed\":[9]}".to_string()))));

    let first = client.sync(body("{\"checkpoint\":2}"));
    let sync_reply = drive(&mut client, &mut channel, first).expect("sync succeeds");
    assert_eq!(client.phase(), Phase::Idle);
    let second = client.sign(body("{\"transaction\":\"t\"}"));
    let sign_reply = drive(&mut client, &mut channel, second).expect("sign succeeds");
    assert_eq!(client.phase(), Phase::Idle);

    assert_eq!(
        channel.sent,
        vec![
            "{\"command\":\"sync\",\"request\":{\"checkpoint\":2}}".to_string(),
            "{\"command\":\"sign\",\"request\":{\"transaction\":\"t\"}}".to_string(),
        ]
    );
    assert_eq!(sync_reply, "{\"synced\":3}");
    assert_eq!(sign_reply, "{\"signed\":[9]}");
    let synced: Value = decoded(serde_json::from_str(&sync_reply)).unwrap();
    let signed: Value = decoded(serde_json::from_str(&sign_reply)).unwrap();
    assert_eq!(synced["synced"], Value::from(3));
    assert_eq!(signed["signed"][0], Value::from(9));
}

#[test]
fn a_failed_exchange_does_not_leak_into_the_next() {
    let mut client = Client::new();
    let mut channel = FakeChannel::new();
    channel.inbound.push_back(Ok(Some(Incoming::Other)));
    channel.inbound.push_back(Ok(Some(Incoming::Text("7".to_string()))));

    let first = client.sync(body("1"));
    assert!(matches!(
        drive(&mut client, &mut channel, first),
        Err(ClientError::InvalidMessageFormat)
    ));
    let second = client.transaction_data(body("2"));
    assert_eq!(drive(&mut client, &mut channel, second).unwrap(), "7");
    assert_eq!(channel.sent[1], "{\"command\":\"transaction_data\",\"request\":2}");
}

#[test]
fn send_frames_any_command() {
    let mut client = Client::new();
    match client.send("custom", body("[1]")) {
        Action::Send(frame) => assert_eq!(frame, "{\"command\":\"custom\",\"request\":[1]}"),
        other => panic!("unexpected action: {:?}", other),
    }
    assert_eq!(client.phase(), Phase::Sending);
}

#[test]
fn a_request_that_cannot_be_encoded_fails_before_anything_is_sent() {
    for index in [0usize, 1, 3, 4, 5] {
        let mut client = Client::new();
        let mut channel = FakeChannel::new();
        let failure = json_failure();
        let message = failure.to_string();
        let first = begin_operation(&mut client, index, Err(failure));
        assert_eq!(client.phase(), Phase::Idle);
        match drive(&mut client, &mut channel, first) {
            Err(ClientError::SerializationError(err)) => assert_eq!(err.to_string(), message),
            other => panic!("unexpected result: {:?}", other),
        }
        assert!(channel.sent.is_empty());
        assert_eq!(channel.receives, 0);
    }
}

#[test]
fn a_failed_send_ends_the_exchange_without_receiving() {
    let mut client = Client::new();
    let mut channel = FakeChannel::replying_text("1");
    channel.send_outcomes.push_back(Err(tungstenite::Error::AlreadyClosed));
    let first = client.sign(body("1"));
    let result = drive(&mut client, &mut channel, first);
    assert!(matches!(
        result,
        Err(ClientError::WebSocket(tungstenite::Error::AlreadyClosed))
    ));
    assert_eq!(channel.receives, 0);
    assert_eq!(client.phase(), Phase::Idle);
}

#[test]
fn a_failed_receive_ends_the_exchange() {
    let mut client = Client::new();
    let mut channel = FakeChannel::replying(Err(tungstenite::Error::ConnectionClosed));
    let first = client.identity_proof(body("1"));
    let result = drive(&mut client, &mut channel, first);
    assert!(matches!(
        result,
        Err(ClientError::WebSocket(tungstenite::Error::ConnectionClosed))
    ));
    assert_eq!(client.phase(), Phase::Idle);
}

#[test]
fn advance_walks_through_the_phases() {
    let mut client = Client::new();
    assert!(matches!(client.sync(body("1")), Action::Send(_)));
    assert_eq!(client.phase(), Phase::Sending);
    assert!(matches!(client.advance(Event::Sent(Ok(()))), Some(Action::Receive)));
    assert_eq!(client.phase(), Phase::Receiving);
    let last = client.advance(Event::Received(Ok(Some(Incoming::Text("2".to_string())))));
    match last {
        Some(Action::Decode(text)) => assert_eq!(text, "2"),
        other => panic!("unexpected action: {:?}", other),
    }
    assert_eq!(client.phase(), Phase::Idle);
}

#[test]
fn an_event_nobody_asked_for_is_not_taken_in() {
    let mut client = Client::new();
    assert!(client.advance(Event::Sent(Ok(()))).is_none());
    assert!(client.advance(Event::Received(Ok(None))).is_none());
    assert_eq!(client.phase(), Phase::Idle);

    let _ = client.sync(body("1"));
    assert!(client
        .advance(Event::Received(Ok(Some(Incoming::Text("1".to_string())))))
        .is_none());
    assert_eq!(client.phase(), Phase::Sending);

    assert!(client.advance(Event::Sent(Ok(()))).is_some());
    assert!(client.advance(Event::Sent(Ok(()))).is_none());
    assert!(client
        .advance(Event::Sent(Err(tungstenite::Error::AlreadyClosed)))
        .is_none());
    assert_eq!(client.phase(), Phase::Receiving);
}

#[test]
fn beginning_again_abandons_the_exchange_in_flight() {
    let mut client = Client::new();
    let _ = client.sync(body("1"));
    let _ = client.advance(Event::Sent(Ok(())));
    assert_eq!(client.phase(), Phase::Receiving);
    match client.sign(body("2")) {
        Action::Send(frame) => assert_eq!(frame, "{\"command\":\"sign\",\"request\":2}"),
        other => panic!("unexpected action: {:?}", other),
    }
    assert_eq!(client.phase(), Phase::Sending);
    let _ = client.sync(Err(json_failure()));
    assert_eq!(client.phase(), Phase::Idle);
}

#[test]
fn errors_convert_from_their_sources() {
    assert!(matches!(
        ClientError::from(json_failure()),
        ClientError::SerializationError(_)
    ));
    assert!(matches!(
        ClientError::from(tungstenite::Error::Utf8),
        ClientError::WebSocket(tungstenite::Error::Utf8)
    ));
}
