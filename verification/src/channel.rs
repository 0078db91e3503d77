//! The channel capability: a messaging platform that the plugin connects the host to.

use vstd::prelude::*;
use std::collections::HashMap;
use tokio::sync::mpsc::Receiver;
use crate::bridge::error_reply;
use crate::bridge::error_reply_of;
use crate::bridge::health_report;
use crate::bridge::healthy;
use crate::bridge::delivered;
use crate::bridge::push_settings;
use crate::bridge::ConfigureHook;
use crate::env::AppEnv;
use crate::env::AppEnvView;
use crate::error::NeboError;
use crate::error::TransportFault;
use crate::model::twins;
use crate::model::views;
use crate::model::Twin;
use crate::relay::open_stream;
use crate::relay::opens_as;
use crate::relay::Outbound;
use crate::relay::StreamSetup;
use crate::wire;
use crate::wire::channel::ChannelSendRequest;
use crate::wire::channel::ChannelSendRequestView;
use crate::wire::channel::ChannelSendResponse;
use crate::wire::channel::ChannelSendResponseView;
use crate::wire::channel::InboundMessage;
use crate::wire::channel::InboundMessageView;
use crate::wire::common::ErrorReply;
use crate::wire::common::HealthCheckResponse;

verus! {

/// Who sent a message.
#[derive(Debug, Clone, PartialEq)]
pub struct MessageSender {
    pub name: String,
    pub role: String,
    pub bot_id: String,
}

/// The content of a `MessageSender`.
pub struct MessageSenderView {
    pub name: Seq<char>,
    pub role: Seq<char>,
    pub bot_id: Seq<char>,
}

impl View for MessageSender {
    type V = MessageSenderView;

    open spec fn view(&self) -> MessageSenderView {
        MessageSenderView {
            name: self.name@,
            role: self.role@,
            bot_id: self.bot_id@,
        }
    }
}

/// A file or a piece of media that comes with a message.
#[derive(Debug, Clone, PartialEq)]
pub struct Attachment {
    pub kind: String,
    pub url: String,
    pub filename: String,
    pub size: i64,
}

/// The content of a `Attachment`.
pub struct AttachmentView {
    pub kind: Seq<char>,
    pub url: Seq<char>,
    pub filename: Seq<char>,
    pub size: i64,
}

impl View for Attachment {
    type V = AttachmentView;

    open spec fn view(&self) -> AttachmentView {
        AttachmentView {
            kind: self.kind@,
            url: self.url@,
            filename: self.filename@,
            size: self.size,
        }
    }
}

/// Something a reader can press: a button, a key of a keyboard row.
#[derive(Debug, Clone, PartialEq)]
pub struct MessageAction {
    pub label: String,
    pub callback_id: String,
}

/// The content of a `MessageAction`.
pub struct MessageActionView {
    pub label: Seq<char>,
    pub callback_id: Seq<char>,
}

impl View for MessageAction {
    type V = MessageActionView;

    open spec fn view(&self) -> MessageActionView {
        MessageActionView {
            label: self.label@,
            callback_id: self.callback_id@,
        }
    }
}

/// A message on a channel, in either direction.
#[derive(Debug, Clone, PartialEq)]
pub struct ChannelEnvelope {
    pub message_id: String,
    pub channel_id: String,
    pub sender: MessageSender,
    pub text: String,
    pub attachments: Vec<Attachment>,
    pub reply_to: String,
    pub actions: Vec<MessageAction>,
    /// Whatever the platform attached, untouched.
    pub platform_data: Vec<u8>,
    pub timestamp: String,
    /// Kept for older hosts.
    pub user_id: String,
    /// Kept for older hosts.
    pub metadata: String,
}

/// The content of a `ChannelEnvelope`.
pub struct ChannelEnvelopeView {
    pub message_id: Seq<char>,
    pub channel_id: Seq<char>,
    pub sender: MessageSenderView,
    pub text: Seq<char>,
    pub attachments: Seq<AttachmentView>,
    pub reply_to: Seq<char>,
    pub actions: Seq<MessageActionView>,
    pub platform_data: Seq<u8>,
    pub timestamp: Seq<char>,
    pub user_id: Seq<char>,
    pub metadata: Seq<char>,
}

impl View for ChannelEnvelope {
    type V = ChannelEnvelopeView;

    open spec fn view(&self) -> ChannelEnvelopeView {
        ChannelEnvelopeView {
            message_id: self.message_id@,
            channel_id: self.channel_id@,
            sender: self.sender@,
            text: self.text@,
            attachments: views(self.attachments@),
            reply_to: self.reply_to@,
            actions: views(self.actions@),
            platform_data: self.platform_data@,
            timestamp: self.timestamp@,
            user_id: self.user_id@,
            metadata: self.metadata@,
        }
    }
}

impl Default for MessageSender {
    fn default() -> (sender: Self)
        ensures
            sender@ == MessageSenderView::nobody(),
    {
        MessageSender { name: String::new(), role: String::new(), bot_id: String::new() }
    }
}

impl MessageSenderView {
    /// The sender of a message that names none.
    pub open spec fn nobody() -> MessageSenderView {
        MessageSenderView { name: Seq::empty(), role: Seq::empty(), bot_id: Seq::empty() }
    }
}

impl Default for Attachment {
    fn default() -> (attachment: Self)
        ensures
            attachment@ == (AttachmentView {
                kind: Seq::empty(),
                url: Seq::empty(),
                filename: Seq::empty(),
                size: 0,
            }),
    {
        Attachment { kind: String::new(), url: String::new(), filename: String::new(), size: 0 }
    }
}

impl Default for MessageAction {
    fn default() -> (action: Self)
        ensures
            action@ == (MessageActionView { label: Seq::empty(), callback_id: Seq::empty() }),
    {
        MessageAction { label: String::new(), callback_id: String::new() }
    }
}

impl ChannelEnvelopeView {
    /// The envelope with nothing in it.
    pub open spec fn blank() -> ChannelEnvelopeView {
        ChannelEnvelopeView {
            message_id: Seq::empty(),
            channel_id: Seq::empty(),
            sender: MessageSenderView::nobody(),
            text: Seq::empty(),
            attachments: Seq::empty(),
            reply_to: Seq::empty(),
            actions: Seq::empty(),
            platform_data: Seq::empty(),
            timestamp: Seq::empty(),
            user_id: Seq::empty(),
            metadata: Seq::empty(),
        }
    }
}

impl Default for ChannelEnvelope {
    fn default() -> (envelope: Self)
        ensures
            envelope@ == ChannelEnvelopeView::blank(),
    {
        let envelope = ChannelEnvelope {
            message_id: String::new(),
            channel_id: String::new(),
            sender: MessageSender::default(),
            text: String::new(),
            attachments: Vec::new(),
            reply_to: String::new(),
            actions: Vec::new(),
            platform_data: Vec::new(),
            timestamp: String::new(),
            user_id: String::new(),
            metadata: String::new(),
        };
        assert(envelope@.attachments =~= Seq::empty());
        assert(envelope@.actions =~= Seq::empty());
        envelope
    }
}

impl Twin<wire::channel::MessageSender> for MessageSender {
    fn twin(&self) -> (w: wire::channel::MessageSender) {
        wire::channel::MessageSender {
            name: self.name.clone(),
            role: self.role.clone(),
            bot_id: self.bot_id.clone(),
        }
    }
}

impl Twin<MessageSender> for wire::channel::MessageSender {
    fn twin(&self) -> (w: MessageSender) {
        MessageSender {
            name: self.name.clone(),
            role: self.role.clone(),
            bot_id: self.bot_id.clone(),
        }
    }
}

impl Twin<wire::channel::Attachment> for Attachment {
    fn twin(&self) -> (w: wire::channel::Attachment) {
        wire::channel::Attachment {
            kind: self.kind.clone(),
            url: self.url.clone(),
            filename: self.filename.clone(),
            size: self.size,
        }
    }
}

impl Twin<Attachment> for wire::channel::Attachment {
    fn twin(&self) -> (w: Attachment) {
        Attachment {
            kind: self.kind.clone(),
            url: self.url.clone(),
            filename: self.filename.clone(),
            size: self.size,
        }
    }
}

impl Twin<wire::channel::MessageAction> for MessageAction {
    fn twin(&self) -> (w: wire::channel::MessageAction) {
        wire::channel::MessageAction {
            label: self.label.clone(),
            callback_id: self.callback_id.clone(),
        }
    }
}

impl Twin<MessageAction> for wire::channel::MessageAction {
    fn twin(&self) -> (w: MessageAction) {
        MessageAction { label: self.label.clone(), callback_id: self.callback_id.clone() }
    }
}

/// How many inbound wire messages may wait for the host before the handler is held back.
pub const INBOUND_QUEUE: usize = 100;

/// The envelope that a request to send asks the handler to send: the request's fields as they
/// are, nobody as the sender where the request names none, and nothing in the fields that a
/// request does not carry.
pub open spec fn envelope_to_send(request: ChannelSendRequestView) -> ChannelEnvelopeView {
    ChannelEnvelopeView {
        message_id: request.message_id,
        channel_id: request.channel_id,
        sender: match request.sender {
            Some(sender) => sender,
            None => MessageSenderView::nobody(),
        },
        text: request.text,
        attachments: request.attachments,
        reply_to: request.reply_to,
        actions: request.actions,
        platform_data: request.platform_data,
        timestamp: Seq::empty(),
        user_id: Seq::empty(),
        metadata: Seq::empty(),
    }
}

/// Decodes a request to send into the envelope that the handler is given.
pub fn decode_send_request(request: ChannelSendRequest) -> (envelope: ChannelEnvelope)
    ensures
        envelope@ == envelope_to_send(request@),
{
    let sender = match &request.sender {
        Some(sender) => sender.twin(),
        None => MessageSender::default(),
    };
    let attachments = twins(&request.attachments);
    let actions = twins(&request.actions);
    ChannelEnvelope {
        message_id: request.message_id,
        channel_id: request.channel_id,
        sender,
        text: request.text,
        attachments,
        reply_to: request.reply_to,
        actions,
        platform_data: request.platform_data,
        timestamp: String::new(),
        user_id: String::new(),
        metadata: String::new(),
    }
}

/// The answer to a request to send: the platform's message identifier on success; on failure
/// what the failure reports, and no identifier.
pub open spec fn send_reply_of(outcome: Result<String, NeboError>) -> ChannelSendResponseView {
    match outcome {
        Ok(message_id) => ChannelSendResponseView { message_id: message_id@, error: Seq::empty() },
        Err(failure) => ChannelSendResponseView {
            message_id: Seq::empty(),
            error: failure.report(),
        },
    }
}

/// Encodes what the handler made of a request to send.
pub fn send_response(outcome: Result<String, NeboError>) -> (r: ChannelSendResponse)
    ensures
        r@ == send_reply_of(outcome),
{
    match outcome {
        Ok(message_id) => ChannelSendResponse { message_id, error: String::new() },
        Err(failure) => ChannelSendResponse {
            message_id: String::new(),
            error: failure.report_text(),
        },
    }
}

/// The wire message that carries an envelope from the platform to the host: every field as it
/// is, the sender always present.
pub open spec fn inbound_of(envelope: ChannelEnvelopeView) -> InboundMessageView {
    InboundMessageView {
        channel_id: envelope.channel_id,
        user_id: envelope.user_id,
        text: envelope.text,
        metadata: envelope.metadata,
        message_id: envelope.message_id,
        sender: Some(envelope.sender),
        attachments: envelope.attachments,
        reply_to: envelope.reply_to,
        actions: envelope.actions,
        platform_data: envelope.platform_data,
        timestamp: envelope.timestamp,
    }
}

impl Outbound for ChannelEnvelope {
    type Wire = InboundMessage;

    open spec fn on_wire(native: ChannelEnvelopeView) -> InboundMessageView {
        inbound_of(native)
    }

    fn into_wire(self) -> (wire: InboundMessage) {
        let sender = self.sender.twin();
        let attachments = twins(&self.attachments);
        let actions = twins(&self.actions);
        InboundMessage {
            channel_id: self.channel_id,
            user_id: self.user_id,
            text: self.text,
            metadata: self.metadata,
            message_id: self.message_id,
            sender: Some(sender),
            attachments,
            reply_to: self.reply_to,
            actions,
            platform_data: self.platform_data,
            timestamp: self.timestamp,
        }
    }
}

/// What an application implements to connect the host to a messaging platform.
pub trait ChannelHandler: Send + Sync + 'static {
    /// The identifier of the channel.
    fn id(&self) -> &str;

    /// Connects to the platform with the given settings.
    fn connect(&self, config: HashMap<String, String>) -> Result<(), NeboError>;

    /// Disconnects from the platform.
    fn disconnect(&self) -> Result<(), NeboError>;

    /// Sends a message out and returns the identifier that the platform gave it.
    fn send(&self, envelope: ChannelEnvelope) -> Result<String, NeboError>;

    /// Opens the stream of messages that come in from the platform.
    fn receive(&self) -> Result<Receiver<ChannelEnvelope>, NeboError>;
}

/// Whether `given` is what the handler's `id` returns.
pub open spec fn says_id<H: ChannelHandler + ?Sized>(handler: &H, given: &str) -> bool {
    call_ensures(H::id, (handler,), given)
}

/// Whether `outcome` is what the handler's `connect` returns for these arguments.
pub open spec fn says_connect<H: ChannelHandler + ?Sized>(
    handler: &H,
    config: HashMap<String, String>,
    outcome: Result<(), NeboError>,
) -> bool {
    call_ensures(H::connect, (handler, config,), outcome)
}

/// Whether `outcome` is what the handler's `disconnect` returns.
pub open spec fn says_disconnect<H: ChannelHandler + ?Sized>(
    handler: &H,
    outcome: Result<(), NeboError>,
) -> bool {
    call_ensures(H::disconnect, (handler,), outcome)
}

/// Whether `outcome` is what the handler's `send` returns for these arguments.
pub open spec fn says_send<H: ChannelHandler + ?Sized>(
    handler: &H,
    envelope: ChannelEnvelope,
    outcome: Result<String, NeboError>,
) -> bool {
    call_ensures(H::send, (handler, envelope,), outcome)
}

/// Whether `opened` is what the handler's `receive` returns.
pub open spec fn says_receive<H: ChannelHandler + ?Sized>(
    handler: &H,
    opened: Result<Receiver<ChannelEnvelope>, NeboError>,
) -> bool {
    call_ensures(H::receive, (handler,), opened)
}

/// The bridge between a channel handler and the channel service.
pub struct ChannelBridge<'a> {
    handler: &'a dyn ChannelHandler,
    env: &'a AppEnv,
    hook: Option<&'a Box<dyn ConfigureHook>>,
}

impl<'a> ChannelBridge<'a> {
    /// The environment that the bridge answers health checks from.
    pub closed spec fn env(&self) -> AppEnvView {
        self.env@
    }

    /// Whether the bridge has a callback to hand configuration updates to.
    pub closed spec fn configurable(&self) -> bool {
        self.hook is Some
    }

    /// Whether an update with these values was handed to the bridge's callback, where the
    /// bridge has one.
    pub closed spec fn hands_over(&self, values: HashMap<String, String>) -> bool {
        delivered(self.hook, values)
    }

    /// Whether `hook` is the callback that the bridge hands configuration updates to.
    pub(crate) closed spec fn carries(&self, hook: Option<&Box<dyn ConfigureHook>>) -> bool {
        self.hook == hook
    }

    /// Whether `id` is the text of what the bridge's handler returns as its identifier.
    pub closed spec fn handler_identifies(&self, id: Seq<char>) -> bool {
        exists|given: &str| says_id(self.handler, given) && given@ == id
    }

    /// Whether `outcome` is what the bridge's handler returns from `connect` for these arguments.
    pub closed spec fn handler_connect(
        &self,
        config: HashMap<String, String>,
        outcome: Result<(), NeboError>,
    ) -> bool {
        says_connect(self.handler, config, outcome)
    }

    /// Whether `outcome` is what the bridge's handler returns from `disconnect`.
    pub closed spec fn handler_disconnect(&self, outcome: Result<(), NeboError>) -> bool {
        says_disconnect(self.handler, outcome)
    }

    /// Whether `outcome` is what the bridge's handler returns from `send` for these arguments.
    pub closed spec fn handler_send(
        &self,
        envelope: ChannelEnvelope,
        outcome: Result<String, NeboError>,
    ) -> bool {
        says_send(self.handler, envelope, outcome)
    }

    /// Whether `opened` is what the bridge's handler returns from `receive`.
    pub closed spec fn handler_receive(
        &self,
        opened: Result<Receiver<ChannelEnvelope>, NeboError>,
    ) -> bool {
        says_receive(self.handler, opened)
    }

    /// A bridge for the handler, in the given environment, without a callback for
    /// configuration updates.
    pub fn new(handler: &'a dyn ChannelHandler, env: &'a AppEnv) -> (bridge: Self)
        ensures
            bridge.env() == env@,
            !bridge.configurable(),
    {
        ChannelBridge { handler, env, hook: None }
    }

    pub(crate) fn with_hook(
        handler: &'a dyn ChannelHandler,
        env: &'a AppEnv,
        hook: Option<&'a Box<dyn ConfigureHook>>,
    ) -> (bridge: Self)
        ensures
            bridge.env() == env@,
            bridge.carries(hook),
            bridge.configurable() == hook is Some,
    {
        ChannelBridge { handler, env, hook }
    }

    /// Answers a health check: alive, under the environment's name and version, whatever state
    /// the handler is in.
    pub fn health_check(&self) -> (r: HealthCheckResponse)
        ensures
            r@ == healthy(self.env()),
    {
        health_report(self.env)
    }

    /// Asks the handler for its identifier and returns a copy of the text it gives.
    pub fn id(&self) -> (id: String)
        ensures
            self.handler_identifies(id@),
    {
        let given = self.handler.id();
        let id = given.to_owned();
        assert(says_id(self.handler, given) && given@ == id@);
        id
    }

    /// Asks the handler once to connect with the given settings. A failure is reported in the
    /// answer.
    pub fn connect(&self, config: HashMap<String, String>) -> (r: ErrorReply)
        ensures
            exists|outcome: Result<(), NeboError>|
                self.handler_connect(config, outcome) && r@ == error_reply_of(outcome),
    {
        let outcome = self.handler.connect(config);
        let r = error_reply(outcome);
        assert(self.handler_connect(config, outcome) && r@ == error_reply_of(outcome));
        r
    }

    /// Asks the handler once to disconnect. A failure is reported in the answer.
    pub fn disconnect(&self) -> (r: ErrorReply)
        ensures
            exists|outcome: Result<(), NeboError>|
                self.handler_disconnect(outcome) && r@ == error_reply_of(outcome),
    {
        let outcome = self.handler.disconnect();
        let r = error_reply(outcome);
        assert(self.handler_disconnect(outcome) && r@ == error_reply_of(outcome));
        r
    }

    /// Decodes a request to send, hands the envelope to the handler once, and encodes what the
    /// handler made of it. A failure is reported in the answer.
    pub fn send(&self, request: ChannelSendRequest) -> (r: ChannelSendResponse)
        ensures
            exists|envelope: ChannelEnvelope, outcome: Result<String, NeboError>|
                envelope@ == envelope_to_send(request@) && self.handler_send(envelope, outcome)
                    && r@ == send_reply_of(outcome),
    {
        let envelope = decode_send_request(request);
        let ghost asked = envelope;
        let outcome = self.handler.send(envelope);
        let r = send_response(outcome);
        assert(asked@ == envelope_to_send(request@) && self.handler_send(asked, outcome)
            && r@ == send_reply_of(outcome));
        r
    }

    /// Asks the handler once to open its stream of inbound messages. Where the handler refuses,
    /// the call fails on the transport.
    pub fn receive(&self) -> (r: Result<StreamSetup<Receiver<ChannelEnvelope>>, TransportFault>)
        ensures
            exists|opened: Result<Receiver<ChannelEnvelope>, NeboError>|
                self.handler_receive(opened) && opens_as(opened, INBOUND_QUEUE, r),
    {
        let opened = self.handler.receive();
        let r = open_stream(opened, INBOUND_QUEUE);
        assert(self.handler_receive(opened) && opens_as(opened, INBOUND_QUEUE, r));
        r
    }

    /// Hands a configuration update to the bridge's callback, once. A bridge without a
    /// callback drops the update. The call cannot fail.
    pub fn configure(&self, values: HashMap<String, String>)
        ensures
            self.hands_over(values),
    {
        push_settings(self.hook, values)
    }
}

} // verus!
