//! The comm capability: a network over which agents talk to each other.

use vstd::prelude::*;
use std::collections::HashMap;
use tokio::sync::mpsc::Receiver;
use crate::bridge::error_reply;
use crate::bridge::error_reply_of;
use crate::bridge::health_report;
use crate::bridge::healthy;
use crate::bridge::delivered;
use crate::bridge::push_settings;
use crate::bridge::ConfigureHook;
use crate::env::AppEnv;
use crate::env::AppEnvView;
use crate::error::NeboError;
use crate::error::TransportFault;
use crate::relay::open_stream;
use crate::relay::opens_as;
use crate::relay::Outbound;
use crate::relay::StreamSetup;
use crate::wire;
use crate::wire::comm::CommRegisterRequest;
use crate::wire::comm::CommSendRequest;
use crate::wire::comm::CommSendRequestView;
use crate::wire::common::ErrorReply;
use crate::wire::common::HealthCheckResponse;

verus! {

/// A message between agents.
#[derive(Debug, Clone, PartialEq)]
pub struct CommMessage {
    pub id: String,
    pub from: String,
    pub to: String,
    pub topic: String,
    pub conversation_id: String,
    pub kind: String,
    pub content: String,
    pub metadata: HashMap<String, String>,
    pub timestamp: i64,
    /// Whether a person put the message in, rather than an agent.
    pub human_injected: bool,
    pub human_id: String,
}

/// The content of a `CommMessage`.
pub struct CommMessageView {
    pub id: Seq<char>,
    pub from: Seq<char>,
    pub to: Seq<char>,
    pub topic: Seq<char>,
    pub conversation_id: Seq<char>,
    pub kind: Seq<char>,
    pub content: Seq<char>,
    pub metadata: Map<String, String>,
    pub timestamp: i64,
    pub human_injected: bool,
    pub human_id: Seq<char>,
}

impl View for CommMessage {
    type V = CommMessageView;

    open spec fn view(&self) -> CommMessageView {
        CommMessageView {
            id: self.id@,
            from: self.from@,
            to: self.to@,
            topic: self.topic@,
            conversation_id: self.conversation_id@,
            kind: self.kind@,
            content: self.content@,
            metadata: self.metadata@,
            timestamp: self.timestamp,
            human_injected: self.human_injected,
            human_id: self.human_id@,
        }
    }
}

impl CommMessageView {
    /// The message with nothing in it.
    pub open spec fn blank() -> CommMessageView {
        CommMessageView {
            id: Seq::empty(),
            from: Seq::empty(),
            to: Seq::empty(),
            topic: Seq::empty(),
            conversation_id: Seq::empty(),
            kind: Seq::empty(),
            content: Seq::empty(),
            metadata: Map::empty(),
            timestamp: 0,
            human_injected: false,
            human_id: Seq::empty(),
        }
    }
}

/// How many messages may wait for the host before the handler is held back.
pub const MESSAGE_QUEUE: usize = 100;

/// Translates a message for the wire, field by field.
pub fn to_proto_comm(m: &CommMessage) -> (w: wire::comm::CommMessage)
    ensures
        w@ == m@,
{
    wire::comm::CommMessage {
        id: m.id.clone(),
        from: m.from.clone(),
        to: m.to.clone(),
        topic: m.topic.clone(),
        conversation_id: m.conversation_id.clone(),
        kind: m.kind.clone(),
        content: m.content.clone(),
        metadata: m.metadata.clone(),
        timestamp: m.timestamp,
        human_injected: m.human_injected,
        human_id: m.human_id.clone(),
    }
}

/// Translates a message from the wire, field by field.
pub fn from_proto_comm(m: &wire::comm::CommMessage) -> (native: CommMessage)
    ensures
        native@ == m@,
{
    CommMessage {
        id: m.id.clone(),
        from: m.from.clone(),
        to: m.to.clone(),
        topic: m.topic.clone(),
        conversation_id: m.conversation_id.clone(),
        kind: m.kind.clone(),
        content: m.content.clone(),
        metadata: m.metadata.clone(),
        timestamp: m.timestamp,
        human_injected: m.human_injected,
        human_id: m.human_id.clone(),
    }
}

/// The message that a request to send asks the handler to send: the request's message, or the
/// blank message where the request carries none.
pub open spec fn message_to_send(request: CommSendRequestView) -> CommMessageView {
    match request.message {
        Some(message) => message,
        None => CommMessageView::blank(),
    }
}

/// Decodes a request to send into the message that the handler is given.
pub fn decode_send_request(request: &CommSendRequest) -> (message: CommMessage)
    ensures
        message@ == message_to_send(request@),
{
    match &request.message {
        Some(message) => from_proto_comm(message),
        None => CommMessage {
            id: String::new(),
            from: String::new(),
            to: String::new(),
            topic: String::new(),
            conversation_id: String::new(),
            kind: String::new(),
            content: String::new(),
            metadata: HashMap::new(),
            timestamp: 0,
            human_injected: false,
            human_id: String::new(),
        },
    }
}

impl Outbound for CommMessage {
    type Wire = wire::comm::CommMessage;

    open spec fn on_wire(native: CommMessageView) -> CommMessageView {
        native
    }

    fn into_wire(self) -> (wire: wire::comm::CommMessage) {
        to_proto_comm(&self)
    }
}

/// What an application implements to connect the host's agents to a network of agents.
pub trait CommHandler: Send + Sync + 'static {
    /// The name of the network.
    fn name(&self) -> &str;

    /// The version of the handler.
    fn version(&self) -> &str;

    /// Connects to the network with the given settings.
    fn connect(&self, config: HashMap<String, String>) -> Result<(), NeboError>;

    /// Disconnects from the network.
    fn disconnect(&self) -> Result<(), NeboError>;

    /// Whether the handler is connected.
    fn is_connected(&self) -> bool;

    /// Sends a message out.
    fn send(&self, message: CommMessage) -> Result<(), NeboError>;

    /// Starts listening to a topic.
    fn subscribe(&self, topic: &str) -> Result<(), NeboError>;

    /// Stops listening to a topic.
    fn unsubscribe(&self, topic: &str) -> Result<(), NeboError>;

    /// Makes an agent known to the network, with what it can do.
    fn register(&self, agent_id: &str, capabilities: &[String]) -> Result<(), NeboError>;

    /// Takes the agent off the network.
    fn deregister(&self) -> Result<(), NeboError>;

    /// Opens the stream of messages that come in from the network.
    fn receive(&self) -> Result<Receiver<CommMessage>, NeboError>;
}

/// Whether `given` is what the handler's `name` returns.
pub open spec fn says_name<H: CommHandler + ?Sized>(handler: &H, given: &str) -> bool {
    call_ensures(H::name, (handler,), given)
}

/// Whether `given` is what the handler's `version` returns.
pub open spec fn says_version<H: CommHandler + ?Sized>(handler: &H, given: &str) -> bool {
    call_ensures(H::version, (handler,), given)
}

/// Whether `connected` is what the handler's `is_connected` returns.
pub open spec fn says_connected<H: CommHandler + ?Sized>(handler: &H, connected: bool) -> bool {
    call_ensures(H::is_connected, (handler,), connected)
}

/// Whether `outcome` is what the handler's `connect` returns for these arguments.
pub open spec fn says_connect<H: CommHandler + ?Sized>(
    handler: &H,
    config: HashMap<String, String>,
    outcome: Result<(), NeboError>,
) -> bool {
    call_ensures(H::connect, (handler, config,), outcome)
}

/// Whether `outcome` is what the handler's `disconnect` returns.
pub open spec fn says_disconnect<H: CommHandler + ?Sized>(
    handler: &H,
    outcome: Result<(), NeboError>,
) -> bool {
    call_ensures(H::disconnect, (handler,), outcome)
}

/// Whether `outcome` is what the handler's `send` returns for these arguments.
pub open spec fn says_send<H: CommHandler + ?Sized>(
    handler: &H,
    message: CommMessage,
    outcome: Result<(), NeboError>,
) -> bool {
    call_ensures(H::send, (handler, message,), outcome)
}

/// Whether `outcome` is what the handler's `subscribe` returns for these arguments.
pub open spec fn says_subscribe<H: CommHandler + ?Sized>(
    handler: &H,
    topic: &str,
    outcome: Result<(), NeboError>,
) -> bool {
    call_ensures(H::subscribe, (handler, topic,), outcome)
}

/// Whether `outcome` is what the handler's `unsubscribe` returns for these arguments.
pub open spec fn says_unsubscribe<H: CommHandler + ?Sized>(
    handler: &H,
    topic: &str,
    outcome: Result<(), NeboError>,
) -> bool {
    call_ensures(H::unsubscribe, (handler, topic,), outcome)
}

/// Whether `outcome` is what the handler's `register` returns for these arguments.
pub open spec fn says_register<H: CommHandler + ?Sized>(
    handler: &H,
    agent_id: &str,
    capabilities: &[String],
    outcome: Result<(), NeboError>,
) -> bool {
    call_ensures(H::register, (handler, agent_id, capabilities,), outcome)
}

/// Whether `outcome` is what the handler's `deregister` returns.
pub open spec fn says_deregister<H: CommHandler + ?Sized>(
    handler: &H,
    outcome: Result<(), NeboError>,
) -> bool {
    call_ensures(H::deregister, (handler,), outcome)
}

/// Whether `opened` is what the handler's `receive` returns.
pub open spec fn says_receive<H: CommHandler + ?Sized>(
    handler: &H,
    opened: Result<Receiver<CommMessage>, NeboError>,
) -> bool {
    call_ensures(H::receive, (handler,), opened)
}

/// The bridge between a comm handler and the comm service.
pub struct CommBridge<'a> {
    handler: &'a dyn CommHandler,
    env: &'a AppEnv,
    hook: Option<&'a Box<dyn ConfigureHook>>,
}

impl<'a> CommBridge<'a> {
    /// The environment that the bridge answers health checks from.
    pub closed spec fn env(&self) -> AppEnvView {
        self.env@
    }

    /// Whether the bridge has a callback to hand configuration updates to.
    pub closed spec fn configurable(&self) -> bool {
        self.hook is Some
    }

    /// Whether an update with these values was handed to the bridge's callback, where the
    /// bridge has one.
    pub closed spec fn hands_over(&self, values: HashMap<String, String>) -> bool {
        delivered(self.hook, values)
    }

    /// Whether `hook` is the callback that the bridge hands configuration updates to.
    pub(crate) closed spec fn carries(&self, hook: Option<&Box<dyn ConfigureHook>>) -> bool {
        self.hook == hook
    }

    /// Whether `name` is the text of what the bridge's handler returns as its name.
    pub closed spec fn handler_names(&self, name: Seq<char>) -> bool {
        exists|given: &str| says_name(self.handler, given) && given@ == name
    }

    /// Whether `version` is the text of what the bridge's handler returns as its version.
    pub closed spec fn handler_versions(&self, version: Seq<char>) -> bool {
        exists|given: &str| says_version(self.handler, given) && given@ == version
    }

    /// Whether `connected` is what the bridge's handler returns when asked whether it is
    /// connected.
    pub closed spec fn handler_says_connected(&self, connected: bool) -> bool {
        says_connected(self.handler, connected)
    }

    /// Whether `outcome` is what the bridge's handler returns from `connect` for these arguments.
    pub closed spec fn handler_connect(
        &self,
        config: HashMap<String, String>,
        outcome: Result<(), NeboError>,
    ) -> bool {
        says_connect(self.handler, config, outcome)
    }

    /// Whether `outcome` is what the bridge's handler returns from `disconnect`.
    pub closed spec fn handler_disconnect(&self, outcome: Result<(), NeboError>) -> bool {
        says_disconnect(self.handler, outcome)
    }

    /// Whether `outcome` is what the bridge's handler returns from `send` for these arguments.
    pub closed spec fn handler_send(
        &self,
        message: CommMessage,
        outcome: Result<(), NeboError>,
    ) -> bool {
        says_send(self.handler, message, outcome)
    }

    /// Whether `outcome` is what the bridge's handler returns from `subscribe` for these arguments.
    pub closed spec fn handler_subscribe(
        &self,
        topic: &str,
        outcome: Result<(), NeboError>,
    ) -> bool {
        says_subscribe(self.handler, topic, outcome)
    }

    /// Whether `outcome` is what the bridge's handler returns from `unsubscribe` for these arguments.
    pub closed spec fn handler_unsubscribe(
        &self,
        topic: &str,
        outcome: Result<(), NeboError>,
    ) -> bool {
        says_unsubscribe(self.handler, topic, outcome)
    }

    /// Whether `outcome` is what the bridge's handler returns from `register` for these arguments.
    pub closed spec fn handler_register(
        &self,
        agent_id: &str,
        capabilities: &[String],
        outcome: Result<(), NeboError>,
    ) -> bool {
        says_register(self.handler, agent_id, capabilities, outcome)
    }

    /// Whether `outcome` is what the bridge's handler returns from `deregister`.
    pub closed spec fn handler_deregister(&self, outcome: Result<(), NeboError>) -> bool {
        says_deregister(self.handler, outcome)
    }

    /// Whether `opened` is what the bridge's handler returns from `receive`.
    pub closed spec fn handler_receive(
        &self,
        opened: Result<Receiver<CommMessage>, NeboError>,
    ) -> bool {
        says_receive(self.handler, opened)
    }

    /// A bridge for the handler, in the given environment, without a callback for
    /// configuration updates.
    pub fn new(handler: &'a dyn CommHandler, env: &'a AppEnv) -> (bridge: Self)
        ensures
            bridge.env() == env@,
            !bridge.configurable(),
    {
        CommBridge { handler, env, hook: None }
    }

    pub(crate) fn with_hook(
        handler: &'a dyn CommHandler,
        env: &'a AppEnv,
        hook: Option<&'a Box<dyn ConfigureHook>>,
    ) -> (bridge: Self)
        ensures
            bridge.env() == env@,
            bridge.carries(hook),
            bridge.configurable() == hook is Some,
    {
        CommBridge { handler, env, hook }
    }

    /// Answers a health check: alive, under the environment's name and version, whatever state
    /// the handler is in.
    pub fn health_check(&self) -> (r: HealthCheckResponse)
        ensures
            r@ == healthy(self.env()),
    {
        health_report(self.env)
    }

    /// Asks the handler for its name and returns a copy of the text it gives.
    pub fn name(&self) -> (name: String)
        ensures
            self.handler_names(name@),
    {
        let given = self.handler.name();
        let name = given.to_owned();
        assert(says_name(self.handler, given) && given@ == name@);
        name
    }

    /// Asks the handler for its version and returns a copy of the text it gives.
    pub fn version(&self) -> (version: String)
        ensures
            self.handler_versions(version@),
    {
        let given = self.handler.version();
        let version = given.to_owned();
        assert(says_version(self.handler, given) && given@ == version@);
        version
    }

    /// Asks the handler once to connect with the given settings. A failure is reported in the
    /// answer.
    pub fn connect(&self, config: HashMap<String, String>) -> (r: ErrorReply)
        ensures
            exists|outcome: Result<(), NeboError>|
                self.handler_connect(config, outcome) && r@ == error_reply_of(outcome),
    {
        let outcome = self.handler.connect(config);
        let r = error_reply(outcome);
        assert(self.handler_connect(config, outcome) && r@ == error_reply_of(outcome));
        r
    }

    /// Asks the handler once to disconnect. A failure is reported in the answer.
    pub fn disconnect(&self) -> (r: ErrorReply)
        ensures
            exists|outcome: Result<(), NeboError>|
                self.handler_disconnect(outcome) && r@ == error_reply_of(outcome),
    {
        let outcome = self.handler.disconnect();
        let r = error_reply(outcome);
        assert(self.handler_disconnect(outcome) && r@ == error_reply_of(outcome));
        r
    }

    /// Asks the handler whether it is connected and returns its answer.
    pub fn is_connected(&self) -> (connected: bool)
        ensures
            self.handler_says_connected(connected),
    {
        self.handler.is_connected()
    }

    /// Decodes a request to send and hands the message to the handler once. A failure is
    /// reported in the answer.
    pub fn send(&self, request: &CommSendRequest) -> (r: ErrorReply)
        ensures
            exists|message: CommMessage, outcome: Result<(), NeboError>|
                message@ == message_to_send(request@) && self.handler_send(message, outcome)
                    && r@ == error_reply_of(outcome),
    {
        let message = decode_send_request(request);
        let ghost asked = message;
        let outcome = self.handler.send(message);
        let r = error_reply(outcome);
        assert(asked@ == message_to_send(request@) && self.handler_send(asked, outcome)
            && r@ == error_reply_of(outcome));
        r
    }

    /// Asks the handler once to listen to a topic. A failure is reported in the answer.
    pub fn subscribe(&self, topic: &str) -> (r: ErrorReply)
        ensures
            exists|outcome: Result<(), NeboError>|
                self.handler_subscribe(topic, outcome) && r@ == error_reply_of(outcome),
    {
        let outcome = self.handler.subscribe(topic);
        let r = error_reply(outcome);
        assert(self.handler_subscribe(topic, outcome) && r@ == error_reply_of(outcome));
        r
    }

    /// Asks the handler once to stop listening to a topic. A failure is reported in the answer.
    pub fn unsubscribe(&self, topic: &str) -> (r: ErrorReply)
        ensures
            exists|outcome: Result<(), NeboError>|
                self.handler_unsubscribe(topic, outcome) && r@ == error_reply_of(outcome),
    {
        let outcome = self.handler.unsubscribe(topic);
        let r = error_reply(outcome);
        assert(self.handler_unsubscribe(topic, outcome) && r@ == error_reply_of(outcome));
        r
    }

    /// Asks the handler once to register the agent of the request with what it can do. A
    /// failure is reported in the answer.
    pub fn register(&self, request: &CommRegisterRequest) -> (r: ErrorReply)
        ensures
            exists|agent_id: &str, capabilities: &[String], outcome: Result<(), NeboError>|
                agent_id@ == request.agent_id@ && capabilities@ == request.capabilities@
                    && self.handler_register(agent_id, capabilities, outcome)
                    && r@ == error_reply_of(outcome),
    {
        let agent_id = request.agent_id.as_str();
        let capabilities = request.capabilities.as_slice();
        let outcome = self.handler.register(agent_id, capabilities);
        let r = error_reply(outcome);
        assert(agent_id@ == request.agent_id@ && capabilities@ == request.capabilities@
            && self.handler_register(agent_id, capabilities, outcome)
            && r@ == error_reply_of(outcome));
        r
    }

    /// Asks the handler once to take the agent off the network. A failure is reported in the
    /// answer.
    pub fn deregister(&self) -> (r: ErrorReply)
        ensures
            exists|outcome: Result<(), NeboError>|
                self.handler_deregister(outcome) && r@ == error_reply_of(outcome),
    {
        let outcome = self.handler.deregister();
        let r = error_reply(outcome);
        assert(self.handler_deregister(outcome) && r@ == error_reply_of(outcome));
        r
    }

    /// Asks the handler once to open its stream of inbound messages. Where the handler refuses,
    /// the call fails on the transport.
    pub fn receive(&self) -> (r: Result<StreamSetup<Receiver<CommMessage>>, TransportFault>)
        ensures
            exists|opened: Result<Receiver<CommMessage>, NeboError>|
                self.handler_receive(opened) && opens_as(opened, MESSAGE_QUEUE, r),
    {
        let opened = self.handler.receive();
        let r = open_stream(opened, MESSAGE_QUEUE);
        assert(self.handler_receive(opened) && opens_as(opened, MESSAGE_QUEUE, r));
        r
    }

    /// Hands a configuration update to the bridge's callback, once. A bridge without a
    /// callback drops the update. The call cannot fail.
    pub fn configure(&self, values: HashMap<String, String>)
        ensures
            self.hands_over(values),
    {
        push_settings(self.hook, values)
    }
}

} // verus!
