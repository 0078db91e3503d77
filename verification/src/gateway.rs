//! The gateway capability: a language model that the plugin puts at the host's disposal.

use vstd::prelude::*;
use std::collections::HashMap;
use tokio::sync::mpsc::Receiver;
use crate::bridge::health_report;
use crate::bridge::healthy;
use crate::bridge::delivered;
use crate::bridge::push_settings;
use crate::bridge::ConfigureHook;
use crate::env::AppEnv;
use crate::env::AppEnvView;
use crate::error::NeboError;
use crate::error::TransportFault;
use crate::model::copy_bytes;
use crate::model::twins;
use crate::model::views;
use crate::model::Twin;
use crate::relay::open_stream;
use crate::relay::opens_as;
use crate::relay::Outbound;
use crate::relay::StreamSetup;
use crate::wire;
use crate::wire::common::HealthCheckResponse;
use crate::wire::gateway::CancelResponse;
use crate::wire::gateway::CancelResponseView;
use crate::wire::gateway::GatewayCallView;
use crate::wire::gateway::PollResponse;
use crate::wire::gateway::PollResponseView;
use crate::wire::gateway::UserContextView;

verus! {

/// A request to a language model for a chat completion.
#[derive(Debug, Clone, PartialEq)]
pub struct GatewayRequest {
    pub request_id: String,
    pub messages: Vec<GatewayMessage>,
    pub tools: Vec<GatewayToolDef>,
    pub max_tokens: i32,
    /// The sampling temperature, as the bits of a 64-bit floating-point number.
    pub temperature_bits: u64,
    pub system: String,
    pub user_id: String,
    pub user_plan: String,
    pub user_token: String,
}

/// The content of a `GatewayRequest`.
pub struct GatewayRequestView {
    pub request_id: Seq<char>,
    pub messages: Seq<GatewayMessageView>,
    pub tools: Seq<GatewayToolDefView>,
    pub max_tokens: i32,
    pub temperature_bits: u64,
    pub system: Seq<char>,
    pub user_id: Seq<char>,
    pub user_plan: Seq<char>,
    pub user_token: Seq<char>,
}

impl View for GatewayRequest {
    type V = GatewayRequestView;

    open spec fn view(&self) -> GatewayRequestView {
        GatewayRequestView {
            request_id: self.request_id@,
            messages: views(self.messages@),
            tools: views(self.tools@),
            max_tokens: self.max_tokens,
            temperature_bits: self.temperature_bits,
            system: self.system@,
            user_id: self.user_id@,
            user_plan: self.user_plan@,
            user_token: self.user_token@,
        }
    }
}

/// One message of a conversation, tagged with the role of who said it.
#[derive(Debug, Clone, PartialEq)]
pub struct GatewayMessage {
    pub role: String,
    pub content: String,
    pub tool_call_id: String,
    pub tool_calls: String,
}

/// The content of a `GatewayMessage`.
pub struct GatewayMessageView {
    pub role: Seq<char>,
    pub content: Seq<char>,
    pub tool_call_id: Seq<char>,
    pub tool_calls: Seq<char>,
}

impl View for GatewayMessage {
    type V = GatewayMessageView;

    open spec fn view(&self) -> GatewayMessageView {
        GatewayMessageView {
            role: self.role@,
            content: self.content@,
            tool_call_id: self.tool_call_id@,
            tool_calls: self.tool_calls@,
        }
    }
}

/// A tool that the model may call.
#[derive(Debug, Clone, PartialEq)]
pub struct GatewayToolDef {
    pub name: String,
    pub description: String,
    pub input_schema: Vec<u8>,
}

/// The content of a `GatewayToolDef`.
pub struct GatewayToolDefView {
    pub name: Seq<char>,
    pub description: Seq<char>,
    pub input_schema: Seq<u8>,
}

impl View for GatewayToolDef {
    type V = GatewayToolDefView;

    open spec fn view(&self) -> GatewayToolDefView {
        GatewayToolDefView {
            name: self.name@,
            description: self.description@,
            input_schema: self.input_schema@,
        }
    }
}

/// One event of a streamed completion.
#[derive(Debug, Clone, PartialEq)]
pub struct GatewayEvent {
    pub kind: String,
    pub content: String,
    pub model: String,
    pub request_id: String,
}

/// The content of a `GatewayEvent`.
pub struct GatewayEventView {
    pub kind: Seq<char>,
    pub content: Seq<char>,
    pub model: Seq<char>,
    pub request_id: Seq<char>,
}

impl View for GatewayEvent {
    type V = GatewayEventView;

    open spec fn view(&self) -> GatewayEventView {
        GatewayEventView {
            kind: self.kind@,
            content: self.content@,
            model: self.model@,
            request_id: self.request_id@,
        }
    }
}

impl Twin<GatewayMessage> for wire::gateway::GatewayMessage {
    fn twin(&self) -> (w: GatewayMessage) {
        GatewayMessage {
            role: self.role.clone(),
            content: self.content.clone(),
            tool_call_id: self.tool_call_id.clone(),
            tool_calls: self.tool_calls.clone(),
        }
    }
}

impl Twin<GatewayToolDef> for wire::gateway::GatewayToolDef {
    fn twin(&self) -> (w: GatewayToolDef) {
        GatewayToolDef {
            name: self.name.clone(),
            description: self.description.clone(),
            input_schema: copy_bytes(&self.input_schema),
        }
    }
}

/// How many events may wait for the host before the handler is held back.
pub const EVENT_QUEUE: usize = 32;

impl UserContextView {
    /// The user of a request that names none.
    pub open spec fn nobody() -> UserContextView {
        UserContextView { token: Seq::empty(), user_id: Seq::empty(), plan: Seq::empty() }
    }
}

/// The request that the handler is given for a call on the wire: the call's fields as they
/// are, and the user's identity spread over three fields, each empty where the call names no
/// user.
pub open spec fn request_of(call: GatewayCallView) -> GatewayRequestView {
    let user = match call.user {
        Some(user) => user,
        None => UserContextView::nobody(),
    };
    GatewayRequestView {
        request_id: call.request_id,
        messages: call.messages,
        tools: call.tools,
        max_tokens: call.max_tokens,
        temperature_bits: call.temperature_bits,
        system: call.system,
        user_id: user.user_id,
        user_plan: user.plan,
        user_token: user.token,
    }
}

/// Decodes a call on the wire into the request that the handler is given.
pub fn decode_request(call: wire::gateway::GatewayRequest) -> (request: GatewayRequest)
    ensures
        request@ == request_of(call@),
{
    let messages = twins(&call.messages);
    let tools = twins(&call.tools);
    let (user_id, user_plan, user_token) = match call.user {
        Some(user) => (user.user_id, user.plan, user.token),
        None => (String::new(), String::new(), String::new()),
    };
    GatewayRequest {
        request_id: call.request_id,
        messages,
        tools,
        max_tokens: call.max_tokens,
        temperature_bits: call.temperature_bits,
        system: call.system,
        user_id,
        user_plan,
        user_token,
    }
}

impl Outbound for GatewayEvent {
    type Wire = wire::gateway::GatewayEvent;

    open spec fn on_wire(native: GatewayEventView) -> GatewayEventView {
        native
    }

    fn into_wire(self) -> (wire: wire::gateway::GatewayEvent) {
        wire::gateway::GatewayEvent {
            kind: self.kind,
            content: self.content,
            model: self.model,
            request_id: self.request_id,
        }
    }
}

/// The answer to a request to cancel: whether the handler cancelled.
pub open spec fn cancel_reply_of(outcome: Result<(), NeboError>) -> CancelResponseView {
    CancelResponseView { cancelled: outcome is Ok }
}

/// Encodes what the handler made of a request to cancel.
pub fn cancel_response(outcome: Result<(), NeboError>) -> (r: CancelResponse)
    ensures
        r@ == cancel_reply_of(outcome),
{
    match outcome {
        Ok(_) => CancelResponse { cancelled: true },
        Err(_) => CancelResponse { cancelled: false },
    }
}

/// What an application implements to put a language model at the host's disposal.
pub trait GatewayHandler: Send + Sync + 'static {
    /// Starts a completion and opens the stream of its events.
    fn stream(&self, request: GatewayRequest) -> Result<Receiver<GatewayEvent>, NeboError>;

    /// Cancels the completion that was started under the given request identifier.
    fn cancel(&self, request_id: &str) -> Result<(), NeboError>;
}

/// Whether `opened` is what the handler's `stream` returns for these arguments.
pub open spec fn says_stream<H: GatewayHandler + ?Sized>(
    handler: &H,
    request: GatewayRequest,
    opened: Result<Receiver<GatewayEvent>, NeboError>,
) -> bool {
    call_ensures(H::stream, (handler, request,), opened)
}

/// Whether `outcome` is what the handler's `cancel` returns for these arguments.
pub open spec fn says_cancel<H: GatewayHandler + ?Sized>(
    handler: &H,
    request_id: &str,
    outcome: Result<(), NeboError>,
) -> bool {
    call_ensures(H::cancel, (handler, request_id,), outcome)
}

/// The bridge between a gateway handler and the gateway service.
pub struct GatewayBridge<'a> {
    handler: &'a dyn GatewayHandler,
    env: &'a AppEnv,
    hook: Option<&'a Box<dyn ConfigureHook>>,
}

impl<'a> GatewayBridge<'a> {
    /// The environment that the bridge answers health checks from.
    pub closed spec fn env(&self) -> AppEnvView {
        self.env@
    }

    /// Whether the bridge has a callback to hand configuration updates to.
    pub closed spec fn configurable(&self) -> bool {
        self.hook is Some
    }

    /// Whether an update with these values was handed to the bridge's callback, where the
    /// bridge has one.
    pub closed spec fn hands_over(&self, values: HashMap<String, String>) -> bool {
        delivered(self.hook, values)
    }

    /// Whether `hook` is the callback that the bridge hands configuration updates to.
    pub(crate) closed spec fn carries(&self, hook: Option<&Box<dyn ConfigureHook>>) -> bool {
        self.hook == hook
    }

    /// Whether `opened` is what the bridge's handler returns from `stream` for these arguments.
    pub closed spec fn handler_stream(
        &self,
        request: GatewayRequest,
        opened: Result<Receiver<GatewayEvent>, NeboError>,
    ) -> bool {
        says_stream(self.handler, request, opened)
    }

    /// Whether `outcome` is what the bridge's handler returns from `cancel` for these arguments.
    pub closed spec fn handler_cancel(
        &self,
        request_id: &str,
        outcome: Result<(), NeboError>,
    ) -> bool {
        says_cancel(self.handler, request_id, outcome)
    }

    /// A bridge for the handler, in the given environment, without a callback for
    /// configuration updates.
    pub fn new(handler: &'a dyn GatewayHandler, env: &'a AppEnv) -> (bridge: Self)
        ensures
            bridge.env() == env@,
            !bridge.configurable(),
    {
        GatewayBridge { handler, env, hook: None }
    }

    pub(crate) fn with_hook(
        handler: &'a dyn GatewayHandler,
        env: &'a AppEnv,
        hook: Option<&'a Box<dyn ConfigureHook>>,
    ) -> (bridge: Self)
        ensures
            bridge.env() == env@,
            bridge.carries(hook),
            bridge.configurable() == hook is Some,
    {
        GatewayBridge { handler, env, hook }
    }

    /// Answers a health check: alive, under the environment's name and version, whatever state
    /// the handler is in.
    pub fn health_check(&self) -> (r: HealthCheckResponse)
        ensures
            r@ == healthy(self.env()),
    {
        health_report(self.env)
    }

    /// Decodes the call, asks the handler once to start the completion and to open the stream of
    /// its events. Where the handler refuses, the call fails on the transport.
    pub fn stream(&self, call: wire::gateway::GatewayRequest) -> (r: Result<
        StreamSetup<Receiver<GatewayEvent>>,
        TransportFault,
    >)
        ensures
            exists|request: GatewayRequest, opened: Result<Receiver<GatewayEvent>, NeboError>|
                request@ == request_of(call@) && self.handler_stream(request, opened) && opens_as(
                    opened,
                    EVENT_QUEUE,
                    r,
                ),
    {
        let request = decode_request(call);
        let ghost asked = request;
        let opened = self.handler.stream(request);
        let r = open_stream(opened, EVENT_QUEUE);
        assert(asked@ == request_of(call@) && self.handler_stream(asked, opened) && opens_as(
            opened,
            EVENT_QUEUE,
            r,
        ));
        r
    }

    /// Answers a poll for events: events travel on the stream only, so a poll finds none and
    /// never reports the completion as done.
    pub fn poll(&self) -> (r: PollResponse)
        ensures
            r@ == (PollResponseView { events: Seq::empty(), complete: false }),
    {
        let r = PollResponse { events: Vec::new(), complete: false };
        assert(r@.events =~= Seq::empty());
        r
    }

    /// Asks the handler once to cancel a completion. The answer says whether it did.
    pub fn cancel(&self, request_id: &str) -> (r: CancelResponse)
        ensures
            exists|outcome: Result<(), NeboError>|
                self.handler_cancel(request_id, outcome) && r@ == cancel_reply_of(outcome),
    {
        let outcome = self.handler.cancel(request_id);
        let r = cancel_response(outcome);
        assert(self.handler_cancel(request_id, outcome) && r@ == cancel_reply_of(outcome));
        r
    }

    /// Hands a configuration update to the bridge's callback, once. A bridge without a
    /// callback drops the update. The call cannot fail.
    pub fn configure(&self, values: HashMap<String, String>)
        ensures
            self.hands_over(values),
    {
        push_settings(self.hook, values)
    }
}

} // verus!
