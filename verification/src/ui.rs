//! The UI capability: views that the plugin gives the host to render, and the events that
//! come back from them.

use vstd::prelude::*;
use vstd::view::View as _;
use std::collections::HashMap;
use tokio::sync::mpsc::Receiver;
use crate::bridge::health_report;
use crate::bridge::healthy;
use crate::bridge::delivered;
use crate::bridge::push_settings;
use crate::bridge::ConfigureHook;
use crate::env::AppEnv;
use crate::env::AppEnvView;
use crate::error::NeboError;
use crate::error::TransportFault;
use crate::model::option_view;
use crate::model::twins;
use crate::model::views;
use crate::model::Twin;
use crate::relay::open_stream;
use crate::relay::opens_as;
use crate::relay::Outbound;
use crate::relay::StreamSetup;
use crate::wire;
use crate::wire::common::HealthCheckResponse;
use crate::wire::ui::UiEventResponse;

verus! {

/// One choice of a select block.
#[derive(Debug, Clone, PartialEq)]
pub struct SelectOption {
    pub label: String,
    pub value: String,
}

/// The content of a `SelectOption`.
pub struct SelectOptionView {
    pub label: Seq<char>,
    pub value: Seq<char>,
}

impl vstd::view::View for SelectOption {
    type V = SelectOptionView;

    open spec fn view(&self) -> SelectOptionView {
        SelectOptionView {
            label: self.label@,
            value: self.value@,
        }
    }
}

/// One element of a view: a text, a button, an input, an image.
#[derive(Debug, Clone, PartialEq)]
pub struct UiBlock {
    pub block_id: String,
    pub kind: String,
    pub text: String,
    pub value: String,
    pub placeholder: String,
    pub hint: String,
    pub variant: String,
    pub src: String,
    pub alt: String,
    pub disabled: bool,
    pub options: Vec<SelectOption>,
    pub style: String,
}

/// The content of a `UiBlock`.
pub struct UiBlockView {
    pub block_id: Seq<char>,
    pub kind: Seq<char>,
    pub text: Seq<char>,
    pub value: Seq<char>,
    pub placeholder: Seq<char>,
    pub hint: Seq<char>,
    pub variant: Seq<char>,
    pub src: Seq<char>,
    pub alt: Seq<char>,
    pub disabled: bool,
    pub options: Seq<SelectOptionView>,
    pub style: Seq<char>,
}

impl vstd::view::View for UiBlock {
    type V = UiBlockView;

    open spec fn view(&self) -> UiBlockView {
        UiBlockView {
            block_id: self.block_id@,
            kind: self.kind@,
            text: self.text@,
            value: self.value@,
            placeholder: self.placeholder@,
            hint: self.hint@,
            variant: self.variant@,
            src: self.src@,
            alt: self.alt@,
            disabled: self.disabled,
            options: views(self.options@),
            style: self.style@,
        }
    }
}

/// A whole view that the host can render: its blocks, in order.
#[derive(Debug, Clone, PartialEq)]
pub struct View {
    pub view_id: String,
    pub title: String,
    pub blocks: Vec<UiBlock>,
}

/// The content of a `View`.
pub struct ViewContent {
    pub view_id: Seq<char>,
    pub title: Seq<char>,
    pub blocks: Seq<UiBlockView>,
}

impl vstd::view::View for View {
    type V = ViewContent;

    open spec fn view(&self) -> ViewContent {
        ViewContent {
            view_id: self.view_id@,
            title: self.title@,
            blocks: views(self.blocks@),
        }
    }
}

/// Something the user did in a view.
#[derive(Debug, Clone, PartialEq)]
pub struct UiEvent {
    pub view_id: String,
    pub block_id: String,
    pub action: String,
    pub value: String,
}

/// The content of a `UiEvent`.
pub struct UiEventView {
    pub view_id: Seq<char>,
    pub block_id: Seq<char>,
    pub action: Seq<char>,
    pub value: Seq<char>,
}

impl vstd::view::View for UiEvent {
    type V = UiEventView;

    open spec fn view(&self) -> UiEventView {
        UiEventView {
            view_id: self.view_id@,
            block_id: self.block_id@,
            action: self.action@,
            value: self.value@,
        }
    }
}

/// What a handler makes of an event.
#[derive(Debug, Clone, PartialEq)]
pub struct UiEventResult {
    /// The view to show next, if it changed.
    pub view: Option<View>,
    /// What the user is told went wrong; empty if nothing did.
    pub error: String,
    /// A passing notice for the user; empty for none.
    pub toast: String,
}

/// The content of a `UiEventResult`.
pub struct UiEventResultView {
    pub view: Option<ViewContent>,
    pub error: Seq<char>,
    pub toast: Seq<char>,
}

impl vstd::view::View for UiEventResult {
    type V = UiEventResultView;

    open spec fn view(&self) -> UiEventResultView {
        UiEventResultView {
            view: option_view(self.view),
            error: self.error@,
            toast: self.toast@,
        }
    }
}

impl Twin<wire::ui::SelectOption> for SelectOption {
    fn twin(&self) -> (w: wire::ui::SelectOption) {
        wire::ui::SelectOption { label: self.label.clone(), value: self.value.clone() }
    }
}

impl Twin<wire::ui::UiBlock> for UiBlock {
    fn twin(&self) -> (w: wire::ui::UiBlock) {
        wire::ui::UiBlock {
            block_id: self.block_id.clone(),
            kind: self.kind.clone(),
            text: self.text.clone(),
            value: self.value.clone(),
            placeholder: self.placeholder.clone(),
            hint: self.hint.clone(),
            variant: self.variant.clone(),
            src: self.src.clone(),
            alt: self.alt.clone(),
            disabled: self.disabled,
            options: twins(&self.options),
            style: self.style.clone(),
        }
    }
}

impl Twin<wire::ui::UiView> for View {
    fn twin(&self) -> (w: wire::ui::UiView) {
        view_to_proto(self)
    }
}

/// Translates a view for the wire: the same identifier and title, and every block with every
/// option, in order.
pub fn view_to_proto(v: &View) -> (w: wire::ui::UiView)
    ensures
        w@ == v@,
{
    wire::ui::UiView {
        view_id: v.view_id.clone(),
        title: v.title.clone(),
        blocks: twins(&v.blocks),
    }
}

impl Outbound for View {
    type Wire = wire::ui::UiView;

    open spec fn on_wire(native: ViewContent) -> ViewContent {
        native
    }

    fn into_wire(self) -> (wire: wire::ui::UiView) {
        view_to_proto(&self)
    }
}

/// How many views may wait for the host before the handler is held back.
pub const UPDATE_QUEUE: usize = 100;

/// The bound of the queue of a stream that nothing is ever written to.
pub const IDLE_QUEUE: usize = 1;

/// Decodes an event from the wire.
pub fn decode_event(event: wire::ui::UiEvent) -> (native: UiEvent)
    ensures
        native@ == event@,
{
    UiEvent {
        view_id: event.view_id,
        block_id: event.block_id,
        action: event.action,
        value: event.value,
    }
}

/// The view without identifier, title or blocks.
pub open spec fn blank_view() -> ViewContent {
    ViewContent { view_id: Seq::empty(), title: Seq::empty(), blocks: Seq::empty() }
}

/// The answer to a request for a view: the handler's view, or, where the handler failed, the
/// view without identifier, title or blocks. A view has no field for an error, so the failure
/// shows only in that.
pub open spec fn view_reply_of(outcome: Result<View, NeboError>) -> ViewContent {
    match outcome {
        Ok(view) => view@,
        Err(_) => blank_view(),
    }
}

/// Encodes what the handler made of a request for a view.
pub fn view_response(outcome: Result<View, NeboError>) -> (r: wire::ui::UiView)
    ensures
        r@ == view_reply_of(outcome),
{
    match outcome {
        Ok(view) => view_to_proto(&view),
        Err(_) => {
            let r = wire::ui::UiView {
                view_id: String::new(),
                title: String::new(),
                blocks: Vec::new(),
            };
            assert(r@.blocks =~= Seq::empty());
            r
        },
    }
}

/// The answer to an event: what the handler made of it, or, where the handler failed, no view,
/// what the failure reports as the error, and no toast.
pub open spec fn event_reply_of(outcome: Result<UiEventResult, NeboError>) -> UiEventResultView {
    match outcome {
        Ok(result) => result@,
        Err(failure) => UiEventResultView {
            view: None,
            error: failure.report(),
            toast: Seq::empty(),
        },
    }
}

/// Encodes what the handler made of an event.
pub fn event_response(outcome: Result<UiEventResult, NeboError>) -> (r: UiEventResponse)
    ensures
        r@ == event_reply_of(outcome),
{
    match outcome {
        Ok(result) => {
            let view = match &result.view {
                Some(view) => Some(view_to_proto(view)),
                None => None,
            };
            UiEventResponse { view, error: result.error, toast: result.toast }
        },
        Err(failure) => UiEventResponse {
            view: None,
            error: failure.report_text(),
            toast: String::new(),
        },
    }
}

/// What an application implements to give the host views to render.
pub trait UiHandler: Send + Sync + 'static {
    /// The view to show in the given context.
    fn get_view(&self, context: &str) -> Result<View, NeboError>;

    /// Takes something the user did.
    fn on_event(&self, event: UiEvent) -> Result<UiEventResult, NeboError>;
}

/// What an application implements, beside `UiHandler`, to push views to the host unasked.
pub trait UiHandlerWithStreaming: Send + Sync + 'static {
    /// Opens the stream of views.
    fn stream_updates(&self) -> Result<Receiver<View>, NeboError>;
}

/// Whether `outcome` is what the handler's `get_view` returns for these arguments.
pub open spec fn says_get_view<H: UiHandler + ?Sized>(
    handler: &H,
    context: &str,
    outcome: Result<View, NeboError>,
) -> bool {
    call_ensures(H::get_view, (handler, context,), outcome)
}

/// Whether `outcome` is what the handler's `on_event` returns for these arguments.
pub open spec fn says_on_event<H: UiHandler + ?Sized>(
    handler: &H,
    event: UiEvent,
    outcome: Result<UiEventResult, NeboError>,
) -> bool {
    call_ensures(H::on_event, (handler, event,), outcome)
}

/// Whether `opened` is what the handler's `stream_updates` returns.
pub open spec fn says_stream_updates<H: UiHandlerWithStreaming + ?Sized>(
    handler: &H,
    opened: Result<Receiver<View>, NeboError>,
) -> bool {
    call_ensures(H::stream_updates, (handler,), opened)
}

/// What the handler's answer to the request to open its stream offers the runtime: the
/// handler's queue as the source, or the handler's failure.
pub open spec fn offered(opened: Result<Receiver<View>, NeboError>) -> Result<
    Option<Receiver<View>>,
    NeboError,
> {
    match opened {
        Ok(source) => Ok(Some(source)),
        Err(failure) => Err(failure),
    }
}

/// Asks a handler that pushes views to open its stream, once. Where the handler refuses, the
/// call fails on the transport.
pub fn open_update_stream<H: UiHandlerWithStreaming + ?Sized>(handler: &H) -> (r: Result<
    StreamSetup<Receiver<View>>,
    TransportFault,
>)
    ensures
        exists|opened: Result<Receiver<View>, NeboError>|
            says_stream_updates(handler, opened) && opens_as(opened, UPDATE_QUEUE, r),
{
    let opened = handler.stream_updates();
    let r = open_stream(opened, UPDATE_QUEUE);
    assert(says_stream_updates(handler, opened) && opens_as(opened, UPDATE_QUEUE, r));
    r
}

/// The bridge between a UI handler and the UI service. It may also serve a handler that pushes
/// views.
pub struct UiBridge<'a> {
    handler: &'a dyn UiHandler,
    updates: Option<&'a dyn UiHandlerWithStreaming>,
    env: &'a AppEnv,
    hook: Option<&'a Box<dyn ConfigureHook>>,
}

impl<'a> UiBridge<'a> {
    /// The environment that the bridge answers health checks from.
    pub closed spec fn env(&self) -> AppEnvView {
        self.env@
    }

    /// Whether the bridge has a callback to hand configuration updates to.
    pub closed spec fn configurable(&self) -> bool {
        self.hook is Some
    }

    /// Whether an update with these values was handed to the bridge's callback, where the
    /// bridge has one.
    pub closed spec fn hands_over(&self, values: HashMap<String, String>) -> bool {
        delivered(self.hook, values)
    }

    /// Whether `hook` is the callback that the bridge hands configuration updates to.
    pub(crate) closed spec fn carries(&self, hook: Option<&Box<dyn ConfigureHook>>) -> bool {
        self.hook == hook
    }

    /// Whether the bridge serves a handler that pushes views.
    pub closed spec fn pushes(&self) -> bool {
        self.updates is Some
    }

    /// Whether `outcome` is what the bridge's handler returns from `get_view` for these arguments.
    pub closed spec fn handler_get_view(
        &self,
        context: &str,
        outcome: Result<View, NeboError>,
    ) -> bool {
        says_get_view(self.handler, context, outcome)
    }

    /// Whether `outcome` is what the bridge's handler returns from `on_event` for these arguments.
    pub closed spec fn handler_on_event(
        &self,
        event: UiEvent,
        outcome: Result<UiEventResult, NeboError>,
    ) -> bool {
        says_on_event(self.handler, event, outcome)
    }

    /// Whether `opened` is what the handler that pushes views returns from `stream_updates`.
    pub closed spec fn handler_stream_updates(&self, opened: Result<Receiver<View>, NeboError>)
        -> bool {
        self.updates matches Some(updates) && says_stream_updates(updates, opened)
    }

    /// A bridge for the handler, in the given environment, without a handler that pushes views
    /// and without a callback for configuration updates.
    pub fn new(handler: &'a dyn UiHandler, env: &'a AppEnv) -> (bridge: Self)
        ensures
            bridge.env() == env@,
            !bridge.configurable(),
            !bridge.pushes(),
    {
        UiBridge { handler, updates: None, env, hook: None }
    }

    /// A bridge for the handler and for a handler that pushes views, in the given environment,
    /// without a callback for configuration updates.
    pub fn with_updates(
        handler: &'a dyn UiHandler,
        updates: &'a dyn UiHandlerWithStreaming,
        env: &'a AppEnv,
    ) -> (bridge: Self)
        ensures
            bridge.env() == env@,
            !bridge.configurable(),
            bridge.pushes(),
    {
        UiBridge { handler, updates: Some(updates), env, hook: None }
    }

    pub(crate) fn with_hook(
        handler: &'a dyn UiHandler,
        updates: Option<&'a dyn UiHandlerWithStreaming>,
        env: &'a AppEnv,
        hook: Option<&'a Box<dyn ConfigureHook>>,
    ) -> (bridge: Self)
        ensures
            bridge.env() == env@,
            bridge.carries(hook),
            bridge.configurable() == hook is Some,
            bridge.pushes() == updates is Some,
    {
        UiBridge { handler, updates, env, hook }
    }

    /// Answers a health check: alive, under the environment's name and version, whatever state
    /// the handler is in.
    pub fn health_check(&self) -> (r: HealthCheckResponse)
        ensures
            r@ == healthy(self.env()),
    {
        health_report(self.env)
    }

    /// Asks the handler once for the view of a context and translates it for the wire. Where
    /// the handler fails, the answer is the view without identifier, title or blocks.
    pub fn get_view(&self, context: &str) -> (r: wire::ui::UiView)
        ensures
            exists|outcome: Result<View, NeboError>|
                self.handler_get_view(context, outcome) && r@ == view_reply_of(outcome),
    {
        let outcome = self.handler.get_view(context);
        let r = view_response(outcome);
        assert(self.handler_get_view(context, outcome) && r@ == view_reply_of(outcome));
        r
    }

    /// Decodes an event, hands it to the handler once, and encodes what the handler made of
    /// it. A failure is reported in the answer.
    pub fn send_event(&self, event: wire::ui::UiEvent) -> (r: UiEventResponse)
        ensures
            exists|native: UiEvent, outcome: Result<UiEventResult, NeboError>|
                native@ == event@ && self.handler_on_event(native, outcome)
                    && r@ == event_reply_of(outcome),
    {
        let native = decode_event(event);
        let ghost asked = native;
        let outcome = self.handler.on_event(native);
        let r = event_response(outcome);
        assert(asked@ == event@ && self.handler_on_event(asked, outcome)
            && r@ == event_reply_of(outcome));
        r
    }

    /// Opens the stream of pushed views. Where the bridge serves a handler that pushes views,
    /// that handler is asked once to open its stream, and a refusal fails the call on the
    /// transport. Otherwise the stream has no source and stays empty.
    pub fn stream_updates(&self) -> (r: Result<StreamSetup<Option<Receiver<View>>>, TransportFault>)
        ensures
            self.pushes() ==> exists|opened: Result<Receiver<View>, NeboError>|
                self.handler_stream_updates(opened) && opens_as(offered(opened), UPDATE_QUEUE, r),
            !self.pushes() ==> (r matches Ok(stream) && stream.source is None && stream.capacity
                == IDLE_QUEUE),
    {
        match self.updates {
            Some(updates) => {
                let opened = updates.stream_updates();
                let ghost asked = opened;
                let offer = match opened {
                    Ok(source) => Ok(Some(source)),
                    Err(failure) => Err(failure),
                };
                let r = open_stream(offer, UPDATE_QUEUE);
                assert(self.handler_stream_updates(asked) && opens_as(
                    offered(asked),
                    UPDATE_QUEUE,
                    r,
                ));
                r
            },
            None => Ok(StreamSetup { source: None, capacity: IDLE_QUEUE }),
        }
    }

    /// Hands a configuration update to the bridge's callback, once. A bridge without a
    /// callback drops the update. The call cannot fail.
    pub fn configure(&self, values: HashMap<String, String>)
        ensures
            self.hands_over(values),
    {
        push_settings(self.hook, values)
    }
}

} // verus!
