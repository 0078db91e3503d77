use std::collections::HashMap;
use std::sync::Mutex;

use nebo_sdk::comm::decode_send_request;
use nebo_sdk::comm::from_proto_comm;
use nebo_sdk::comm::to_proto_comm;
use nebo_sdk::comm::CommBridge;
use nebo_sdk::comm::CommHandler;
use nebo_sdk::comm::CommMessage;
use nebo_sdk::comm::MESSAGE_QUEUE;
use nebo_sdk::relay::Outbound;
use nebo_sdk::wire;
use nebo_sdk::wire::comm::CommRegisterRequest;
use nebo_sdk::wire::comm::CommSendRequest;
use nebo_sdk::AppEnv;
use nebo_sdk::NeboError;
use nebo_sdk::TransportFault;
use tokio::sync::mpsc::Receiver;

fn env() -> AppEnv {
    AppEnv {
        dir: String::new(),
        sock_path: "/run/mesh.sock".to_string(),
        id: String::new(),
        name: "mesh".to_string(),
        version: "0.9.1".to_string(),
        data_dir: String::new(),
    }
}

fn metadata() -> HashMap<String, String> {
    let mut metadata = HashMap::new();
    metadata.insert("trace".to_string(), "t-1".to_string());
    metadata.insert("lang".to_string(), "en".to_string());
    metadata
}

fn native() -> CommMessage {
    CommMessage {
        id: "c-1".to_string(),
        from: "alice".to_string(),
        to: "bob".to_string(),
        topic: "news".to_string(),
        conversation_id: "conv".to_string(),
        kind: "message".to_string(),
        content: "hello".to_string(),
        metadata: metadata(),
        timestamp: 1700000000,
        human_injected: true,
        human_id: "h-1".to_string(),
    }
}

fn on_wire() -> wire::comm::CommMessage {
    wire::comm::CommMessage {
        id: "c-1".to_string(),
        from: "alice".to_string(),
        to: "bob".to_string(),
        topic: "news".to_string(),
        conversation_id: "conv".to_string(),
        kind: "message".to_string(),
        content: "hello".to_string(),
        metadata: metadata(),
        timestamp: 1700000000,
        human_injected: true,
        human_id: "h-1".to_string(),
    }
}

fn blank() -> CommMessage {
    CommMessage {
        id: String::new(),
        from: String::new(),
        to: String::new(),
        topic: String::new(),
        conversation_id: String::new(),
        kind: String::new(),
        content: String::new(),
        metadata: HashMap::new(),
        timestamp: 0,
        human_injected: false,
        human_id: String::new(),
    }
}

struct Mesh {
    connected: Mutex<bool>,
    topics: Mutex<Vec<String>>,
    sent: Mutex<Vec<CommMessage>>,
    agents: Mutex<Vec<(String, Vec<String>)>>,
}

impl Mesh {
    fn new() -> Self {
        Mesh {
            connected: Mutex::new(false),
            topics: Mutex::new(Vec::new()),
            sent: Mutex::new(Vec::new()),
            agents: Mutex::new(Vec::new()),
        }
    }

    fn online(&self) -> Result<(), NeboError> {
        if *self.connected.lock().unwrap() {
            Ok(())
        } else {
            Err(NeboError::Execution("offline".to_string()))
        }
    }
}

impl CommHandler for Mesh {
    fn name(&self) -> &str {
        "mesh"
    }

    fn version(&self) -> &str {
        "7"
    }

    fn connect(&self, _config: HashMap<String, String>) -> Result<(), NeboError> {
        *self.connected.lock().unwrap() = true;
        Ok(())
    }

    fn disconnect(&self) -> Result<(), NeboError> {
        self.online()?;
        *self.connected.lock().unwrap() = false;
        Ok(())
    }

    fn is_connected(&self) -> bool {
        *self.connected.lock().unwrap()
    }

    fn send(&self, message: CommMessage) -> Result<(), NeboError> {
        self.online()?;
        self.sent.lock().unwrap().push(message);
        Ok(())
    }

    fn subscribe(&self, topic: &str) -> Result<(), NeboError> {
        self.online()?;
        self.topics.lock().unwrap().push(topic.to_string());
        Ok(())
    }

    fn unsubscribe(&self, topic: &str) -> Result<(), NeboError> {
        let mut topics = self.topics.lock().unwrap();
        if topics.iter().any(|t| t == topic) {
            topics.retain(|t| t != topic);
            Ok(())
        } else {
            Err(NeboError::Other(format!("not subscribed to {topic}")))
        }
    }

    fn register(&self, agent_id: &str, capabilities: &[String]) -> Result<(), NeboError> {
        self.online()?;
        self.agents.lock().unwrap().push((agent_id.to_string(), capabilities.to_vec()));
        Ok(())
    }

    fn deregister(&self) -> Result<(), NeboError> {
        match self.agents.lock().unwrap().pop() {
            Some(_) => Ok(()),
            None => Err(NeboError::Other("nobody registered".to_string())),
        }
    }

    fn receive(&self) -> Result<Receiver<CommMessage>, NeboError> {
        self.online()?;
        let (_tx, rx) = tokio::sync::mpsc::channel(1);
        Ok(rx)
    }
}

#[test]
fn a_message_is_translated_for_the_wire_field_by_field() {
    assert_eq!(to_proto_comm(&native()), on_wire());
    assert_eq!(native().into_wire(), on_wire());
}

#[test]
fn a_message_is_translated_from_the_wire_field_by_field() {
    assert_eq!(from_proto_comm(&on_wire()), native());
    assert_eq!(from_proto_comm(&to_proto_comm(&native())), native());
}

#[test]
fn a_request_without_a_message_stands_for_the_blank_message() {
    assert_eq!(decode_send_request(&CommSendRequest { message: None }), blank());
    assert_eq!(decode_send_request(&CommSendRequest { message: Some(on_wire()) }), native());
}

#[test]
fn failures_of_the_handler_are_reported_in_the_answer() {
    let env = env();
    let mesh = Mesh::new();
    let bridge = CommBridge::new(&mesh, &env);
    assert!(!bridge.is_connected());
    assert_eq!(bridge.disconnect().error, "execution error: offline");
    assert_eq!(bridge.send(&CommSendRequest { message: Some(on_wire()) }).error, "execution error: offline");
    assert_eq!(bridge.subscribe("news").error, "execution error: offline");
    assert_eq!(bridge.unsubscribe("news").error, "not subscribed to news");
    assert_eq!(
        bridge
            .register(&CommRegisterRequest { agent_id: "a".to_string(), capabilities: vec![] })
            .error,
        "execution error: offline"
    );
    assert_eq!(bridge.deregister().error, "nobody registered");
    match bridge.receive() {
        Err(fault) => assert_eq!(fault, TransportFault::Internal("execution error: offline".to_string())),
        Ok(_) => panic!("the handler is offline"),
    }
}

#[test]
fn the_handler_is_given_what_was_asked() {
    let env = env();
    let mesh = Mesh::new();
    let bridge = CommBridge::new(&mesh, &env);
    assert_eq!(bridge.connect(HashMap::new()).error, "");
    assert!(bridge.is_connected());
    assert_eq!(bridge.send(&CommSendRequest { message: Some(on_wire()) }).error, "");
    assert_eq!(bridge.send(&CommSendRequest { message: None }).error, "");
    assert_eq!(*mesh.sent.lock().unwrap(), vec![native(), blank()]);
    assert_eq!(bridge.subscribe("news").error, "");
    assert_eq!(*mesh.topics.lock().unwrap(), vec!["news".to_string()]);
    assert_eq!(bridge.unsubscribe("news").error, "");
    let request = CommRegisterRequest {
        agent_id: "agent-1".to_string(),
        capabilities: vec!["search".to_string(), "plan".to_string()],
    };
    assert_eq!(bridge.register(&request).error, "");
    assert_eq!(
        *mesh.agents.lock().unwrap(),
        vec![("agent-1".to_string(), vec!["search".to_string(), "plan".to_string()])]
    );
    assert_eq!(bridge.deregister().error, "");
    assert_eq!(bridge.receive().unwrap().capacity, 100);
    assert_eq!(MESSAGE_QUEUE, 100);
    assert_eq!(bridge.disconnect().error, "");
}

#[test]
fn the_comm_bridge_answers_for_the_handler_and_the_environment() {
    let env = env();
    let mesh = Mesh::new();
    let bridge = CommBridge::new(&mesh, &env);
    assert_eq!(bridge.name(), "mesh");
    assert_eq!(bridge.version(), "7");
    let health = bridge.health_check();
    assert!(health.healthy);
    assert_eq!(health.name, "mesh");
    assert_eq!(health.version, "0.9.1");
    bridge.configure(HashMap::new());
}
