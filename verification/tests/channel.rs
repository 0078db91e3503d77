use std::collections::HashMap;
use std::sync::Mutex;

use nebo_sdk::channel::decode_send_request;
use nebo_sdk::channel::send_response;
use nebo_sdk::channel::Attachment;
use nebo_sdk::channel::ChannelBridge;
use nebo_sdk::channel::ChannelEnvelope;
use nebo_sdk::channel::ChannelHandler;
use nebo_sdk::channel::MessageAction;
use nebo_sdk::channel::MessageSender;
use nebo_sdk::channel::INBOUND_QUEUE;
use nebo_sdk::relay::Outbound;
use nebo_sdk::relay::Relay;
use nebo_sdk::relay::RelayAction;
use nebo_sdk::relay::RelaySignal;
use nebo_sdk::wire;
use nebo_sdk::wire::channel::ChannelSendRequest;
use nebo_sdk::wire::channel::InboundMessage;
use nebo_sdk::AppEnv;
use nebo_sdk::NeboApp;
use nebo_sdk::NeboError;
use nebo_sdk::TransportFault;
use tokio::sync::mpsc;
use tokio::sync::mpsc::error::TryRecvError;
use tokio::sync::mpsc::Receiver;

fn env() -> AppEnv {
    AppEnv {
        dir: String::new(),
        sock_path: "/run/chat.sock".to_string(),
        id: String::new(),
        name: "chat".to_string(),
        version: "0.4.0".to_string(),
        data_dir: String::new(),
    }
}

struct Chat {
    inbound: Mutex<Option<Receiver<ChannelEnvelope>>>,
    sent: Mutex<Vec<ChannelEnvelope>>,
    connected_with: Mutex<Option<HashMap<String, String>>>,
}

impl Chat {
    fn new(inbound: Option<Receiver<ChannelEnvelope>>) -> Self {
        Chat {
            inbound: Mutex::new(inbound),
            sent: Mutex::new(Vec::new()),
            connected_with: Mutex::new(None),
        }
    }
}

impl ChannelHandler for Chat {
    fn id(&self) -> &str {
        "chat-1"
    }

    fn connect(&self, config: HashMap<String, String>) -> Result<(), NeboError> {
        if config.contains_key("token") {
            *self.connected_with.lock().unwrap() = Some(config);
            Ok(())
        } else {
            Err(NeboError::Execution("no token".to_string()))
        }
    }

    fn disconnect(&self) -> Result<(), NeboError> {
        match self.connected_with.lock().unwrap().take() {
            Some(_) => Ok(()),
            None => Err(NeboError::Other("not connected".to_string())),
        }
    }

    fn send(&self, envelope: ChannelEnvelope) -> Result<String, NeboError> {
        if envelope.text.is_empty() {
            return Err(NeboError::Execution("nothing to send".to_string()));
        }
        let mut sent = self.sent.lock().unwrap();
        sent.push(envelope);
        Ok(format!("m-{}", sent.len()))
    }

    fn receive(&self) -> Result<Receiver<ChannelEnvelope>, NeboError> {
        match self.inbound.lock().unwrap().take() {
            Some(inbound) => Ok(inbound),
            None => Err(NeboError::Execution("no inbound stream".to_string())),
        }
    }
}

fn envelope(text: &str) -> ChannelEnvelope {
    ChannelEnvelope {
        message_id: format!("id-{text}"),
        channel_id: "general".to_string(),
        sender: MessageSender {
            name: "Ada".to_string(),
            role: "user".to_string(),
            bot_id: String::new(),
        },
        text: text.to_string(),
        attachments: vec![Attachment {
            kind: "image".to_string(),
            url: "https://example.test/a.png".to_string(),
            filename: "a.png".to_string(),
            size: 42,
        }],
        reply_to: "id-0".to_string(),
        actions: vec![MessageAction { label: "Ok".to_string(), callback_id: "ok".to_string() }],
        platform_data: vec![1, 2, 3],
        timestamp: "2024-01-01T00:00:00Z".to_string(),
        user_id: "u-1".to_string(),
        metadata: "{}".to_string(),
    }
}

fn wire_of(text: &str) -> InboundMessage {
    InboundMessage {
        channel_id: "general".to_string(),
        user_id: "u-1".to_string(),
        text: text.to_string(),
        metadata: "{}".to_string(),
        message_id: format!("id-{text}"),
        sender: Some(wire::channel::MessageSender {
            name: "Ada".to_string(),
            role: "user".to_string(),
            bot_id: String::new(),
        }),
        attachments: vec![wire::channel::Attachment {
            kind: "image".to_string(),
            url: "https://example.test/a.png".to_string(),
            filename: "a.png".to_string(),
            size: 42,
        }],
        reply_to: "id-0".to_string(),
        actions: vec![wire::channel::MessageAction {
            label: "Ok".to_string(),
            callback_id: "ok".to_string(),
        }],
        platform_data: vec![1, 2, 3],
        timestamp: "2024-01-01T00:00:00Z".to_string(),
    }
}

fn request(text: &str) -> ChannelSendRequest {
    ChannelSendRequest {
        channel_id: "general".to_string(),
        text: text.to_string(),
        message_id: "m-0".to_string(),
        sender: None,
        attachments: vec![],
        reply_to: String::new(),
        actions: vec![],
        platform_data: vec![],
    }
}

#[test]
fn two_envelopes_are_forwarded_in_order_and_the_stream_ends_cleanly() {
    let (tx, rx) = mpsc::channel(8);
    tx.try_send(envelope("first")).unwrap();
    tx.try_send(envelope("second")).unwrap();
    drop(tx);
    let app = NeboApp::new(env()).unwrap().register_channel(Chat::new(Some(rx)));
    let bridge = app.channel().unwrap();

    let stream = bridge.receive().unwrap();
    assert_eq!(stream.capacity, 100);
    assert_eq!(stream.capacity, INBOUND_QUEUE);
    let mut source = stream.source;
    let mut relay = Relay::new();
    let mut forwarded = Vec::new();
    let mut stops = 0;
    while !relay.is_over() {
        let signal = match source.try_recv() {
            Ok(message) => RelaySignal::Produced(message),
            Err(TryRecvError::Disconnected) => RelaySignal::SourceClosed,
            Err(TryRecvError::Empty) => panic!("the handler has closed its queue"),
        };
        match relay.step(signal) {
            RelayAction::Forward(message) => forwarded.push(message),
            RelayAction::Stop => stops += 1,
        }
    }
    assert_eq!(forwarded, vec![wire_of("first"), wire_of("second")]);
    assert_eq!(stops, 1);
    assert_eq!(relay, Relay::Drained);
}

#[test]
fn a_stream_that_cannot_be_opened_is_a_fault_of_the_transport() {
    let env = env();
    let chat = Chat::new(None);
    let bridge = ChannelBridge::new(&chat, &env);
    match bridge.receive() {
        Err(fault) => assert_eq!(
            fault,
            TransportFault::Internal("execution error: no inbound stream".to_string())
        ),
        Ok(_) => panic!("the handler refused to open the stream"),
    }
}

#[test]
fn an_envelope_goes_on_the_wire_with_every_field() {
    assert_eq!(envelope("hello").into_wire(), wire_of("hello"));
    let blank = ChannelEnvelope::default().into_wire();
    assert_eq!(blank.sender, Some(wire::channel::MessageSender {
        name: String::new(),
        role: String::new(),
        bot_id: String::new(),
    }));
    assert_eq!(blank.text, "");
    assert!(blank.attachments.is_empty());
}

#[test]
fn a_request_to_send_is_decoded_field_by_field() {
    let request = ChannelSendRequest {
        channel_id: "general".to_string(),
        text: "hello".to_string(),
        message_id: "m-7".to_string(),
        sender: Some(wire::channel::MessageSender {
            name: "Bot".to_string(),
            role: "assistant".to_string(),
            bot_id: "b-1".to_string(),
        }),
        attachments: vec![
            wire::channel::Attachment {
                kind: "file".to_string(),
                url: "u1".to_string(),
                filename: "f1".to_string(),
                size: 1,
            },
            wire::channel::Attachment {
                kind: "image".to_string(),
                url: "u2".to_string(),
                filename: "f2".to_string(),
                size: -2,
            },
        ],
        reply_to: "m-6".to_string(),
        actions: vec![wire::channel::MessageAction {
            label: "Yes".to_string(),
            callback_id: "yes".to_string(),
        }],
        platform_data: vec![9, 8],
    };
    let envelope = decode_send_request(request);
    assert_eq!(envelope, ChannelEnvelope {
        message_id: "m-7".to_string(),
        channel_id: "general".to_string(),
        sender: MessageSender {
            name: "Bot".to_string(),
            role: "assistant".to_string(),
            bot_id: "b-1".to_string(),
        },
        text: "hello".to_string(),
        attachments: vec![
            Attachment {
                kind: "file".to_string(),
                url: "u1".to_string(),
                filename: "f1".to_string(),
                size: 1,
            },
            Attachment {
                kind: "image".to_string(),
                url: "u2".to_string(),
                filename: "f2".to_string(),
                size: -2,
            },
        ],
        reply_to: "m-6".to_string(),
        actions: vec![MessageAction { label: "Yes".to_string(), callback_id: "yes".to_string() }],
        platform_data: vec![9, 8],
        timestamp: String::new(),
        user_id: String::new(),
        metadata: String::new(),
    });
}

#[test]
fn a_request_without_a_sender_names_nobody() {
    let envelope = decode_send_request(request("hello"));
    assert_eq!(envelope.sender, MessageSender::default());
    assert_eq!(envelope.sender.name, "");
    assert_eq!(envelope.timestamp, "");
}

#[test]
fn the_handler_is_given_the_decoded_envelope_and_its_answer_is_encoded() {
    let env = env();
    let chat = Chat::new(None);
    let bridge = ChannelBridge::new(&chat, &env);
    let response = bridge.send(request("hello"));
    assert_eq!(response.message_id, "m-1");
    assert_eq!(response.error, "");
    assert_eq!(chat.sent.lock().unwrap()[0], decode_send_request(request("hello")));
}

#[test]
fn a_failed_send_is_reported_in_the_answer() {
    let env = env();
    let chat = Chat::new(None);
    let bridge = ChannelBridge::new(&chat, &env);
    let response = bridge.send(request(""));
    assert_eq!(response.message_id, "");
    assert_eq!(response.error, "execution error: nothing to send");
    let encoded = send_response(Err(NeboError::Io("down".to_string())));
    assert_eq!(encoded.error, "io error: down");
    assert_eq!(encoded.message_id, "");
}

#[test]
fn connecting_and_disconnecting_report_failures_in_the_answer() {
    let env = env();
    let chat = Chat::new(None);
    let bridge = ChannelBridge::new(&chat, &env);
    assert_eq!(bridge.disconnect().error, "not connected");
    assert_eq!(bridge.connect(HashMap::new()).error, "execution error: no token");
    let mut config = HashMap::new();
    config.insert("token".to_string(), "t".to_string());
    assert_eq!(bridge.connect(config.clone()).error, "");
    assert_eq!(*chat.connected_with.lock().unwrap(), Some(config));
    assert_eq!(bridge.disconnect().error, "");
}

#[test]
fn the_channel_bridge_answers_for_the_handler_and_the_environment() {
    let env = env();
    let chat = Chat::new(None);
    let bridge = ChannelBridge::new(&chat, &env);
    assert_eq!(bridge.id(), "chat-1");
    let health = bridge.health_check();
    assert!(health.healthy);
    assert_eq!(health.name, "chat");
    assert_eq!(health.version, "0.4.0");
    bridge.configure(HashMap::new());
}

struct Mute;

impl ChannelHandler for Mute {
    fn id(&self) -> &str {
        "mute"
    }

    fn connect(&self, _config: HashMap<String, String>) -> Result<(), NeboError> {
        Err(NeboError::Other(String::new()))
    }

    fn disconnect(&self) -> Result<(), NeboError> {
        Err(NeboError::from(""))
    }

    fn send(&self, _envelope: ChannelEnvelope) -> Result<String, NeboError> {
        Err(NeboError::Other(String::new()))
    }

    fn receive(&self) -> Result<Receiver<ChannelEnvelope>, NeboError> {
        Err(NeboError::Other(String::new()))
    }
}

#[test]
fn a_failure_without_a_text_is_not_answered_like_a_success() {
    let env = env();
    let bridge = ChannelBridge::new(&Mute, &env);
    assert_eq!(bridge.connect(HashMap::new()).error, "unknown error");
    assert_eq!(bridge.disconnect().error, "unknown error");
    let sent = bridge.send(request("hello"));
    assert_eq!(sent.error, "unknown error");
    assert_eq!(sent.message_id, "");
    assert!(bridge.receive().is_err());
}
