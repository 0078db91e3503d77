//! The application: the capabilities that a plugin registers, and the bridges that the runtime
//! installs for them.

use vstd::prelude::*;
use std::collections::HashMap;
use crate::bridge::health_report;
use crate::bridge::healthy;
use crate::bridge::ConfigureHook;
use crate::bridge::FnHook;
use crate::channel::ChannelBridge;
use crate::channel::ChannelHandler;
use crate::comm::CommBridge;
use crate::comm::CommHandler;
use crate::env::AppEnv;
use crate::env::AppEnvView;
use crate::error::NeboError;
use crate::gateway::GatewayBridge;
use crate::gateway::GatewayHandler;
use crate::lifecycle::lemma_without_handlers_nothing_is_bound;
use crate::lifecycle::touches_transport;
use crate::lifecycle::ActionView;
use crate::lifecycle::Lifecycle;
use crate::lifecycle::LifecycleEvent;
use crate::lifecycle::LifecycleView;
use crate::lifecycle::Phase;
use crate::schedule::ScheduleBridge;
use crate::schedule::ScheduleHandler;
use crate::tool::ToolBridge;
use crate::tool::ToolHandler;
use crate::ui::UiBridge;
use crate::ui::UiHandler;
use crate::ui::UiHandlerWithStreaming;
use crate::wire::common::HealthCheckResponse;

verus! {

/// One of the six roles that a plugin can play for the host.
#[derive(Clone, Copy, Debug, PartialEq, Eq, Structural)]
pub enum Capability {
    Tool,
    Channel,
    Gateway,
    Ui,
    Comm,
    Schedule,
}

/// A plugin application: its environment, the handlers it registered, and its callback for
/// configuration updates.
pub struct NeboApp {
    env: AppEnv,
    tool: Option<Box<dyn ToolHandler>>,
    channel: Option<Box<dyn ChannelHandler>>,
    gateway: Option<Box<dyn GatewayHandler>>,
    ui: Option<Box<dyn UiHandler>>,
    ui_updates: Option<Box<dyn UiHandlerWithStreaming>>,
    comm: Option<Box<dyn CommHandler>>,
    schedule: Option<Box<dyn ScheduleHandler>>,
    on_configure: Option<Box<dyn ConfigureHook>>,
}

/// What an application holds, without the handlers themselves.
pub struct NeboAppView {
    pub env: AppEnvView,
    /// The capabilities that have a handler.
    pub registered: Set<Capability>,
    /// Whether a callback for configuration updates is registered.
    pub configurable: bool,
    /// Whether a handler that pushes views is registered.
    pub pushes_views: bool,
}

impl NeboAppView {
    /// Whether any capability has a handler.
    pub open spec fn serves_any(self) -> bool {
        exists|capability: Capability| self.registered.contains(capability)
    }

    /// The capabilities that have a handler, in the order in which the runtime installs their
    /// bridges.
    pub open spec fn installed(self) -> Seq<Capability> {
        self.pick(Capability::Tool) + self.pick(Capability::Channel) + self.pick(
            Capability::Gateway,
        ) + self.pick(Capability::Ui) + self.pick(Capability::Comm) + self.pick(
            Capability::Schedule,
        )
    }

    /// The capability alone if it has a handler, nothing otherwise.
    pub open spec fn pick(self, capability: Capability) -> Seq<Capability> {
        if self.registered.contains(capability) {
            seq![capability]
        } else {
            Seq::empty()
        }
    }

    /// The life of the runtime for this application, before it starts: ready to run exactly if
    /// a capability has a handler.
    pub open spec fn plan(self) -> LifecycleView {
        LifecycleView {
            phase: Phase::Created,
            ready: self.serves_any(),
            name: self.env.name,
            sock_path: self.env.sock_path,
        }
    }

    /// The application after a handler was registered for a capability.
    pub open spec fn with(self, capability: Capability) -> NeboAppView {
        NeboAppView { registered: self.registered.insert(capability), ..self }
    }
}

impl View for NeboApp {
    type V = NeboAppView;

    closed spec fn view(&self) -> NeboAppView {
        NeboAppView {
            env: self.env@,
            registered: Set::new(
                |capability: Capability|
                    match capability {
                        Capability::Tool => self.tool is Some,
                        Capability::Channel => self.channel is Some,
                        Capability::Gateway => self.gateway is Some,
                        Capability::Ui => self.ui is Some,
                        Capability::Comm => self.comm is Some,
                        Capability::Schedule => self.schedule is Some,
                    },
            ),
            configurable: self.on_configure is Some,
            pushes_views: self.ui_updates is Some,
        }
    }
}

impl NeboApp {
    #[verifier::type_invariant]
    spec fn has_address(self) -> bool {
        self.env.sock_path@.len() > 0
    }

    /// Whether the tool handler is `h`.
    pub closed spec fn holds_tool<H: ToolHandler>(&self, h: H) -> bool {
        self.tool == Some::<Box<dyn ToolHandler>>(Box::new(h))
    }

    /// Whether the channel handler is `h`.
    pub closed spec fn holds_channel<H: ChannelHandler>(&self, h: H) -> bool {
        self.channel == Some::<Box<dyn ChannelHandler>>(Box::new(h))
    }

    /// Whether the gateway handler is `h`.
    pub closed spec fn holds_gateway<H: GatewayHandler>(&self, h: H) -> bool {
        self.gateway == Some::<Box<dyn GatewayHandler>>(Box::new(h))
    }

    /// Whether the UI handler is `h`.
    pub closed spec fn holds_ui<H: UiHandler>(&self, h: H) -> bool {
        self.ui == Some::<Box<dyn UiHandler>>(Box::new(h))
    }

    /// Whether the handler that pushes views is `h`.
    pub closed spec fn holds_ui_updates<H: UiHandlerWithStreaming>(&self, h: H) -> bool {
        self.ui_updates == Some::<Box<dyn UiHandlerWithStreaming>>(Box::new(h))
    }

    /// Whether the comm handler is `h`.
    pub closed spec fn holds_comm<H: CommHandler>(&self, h: H) -> bool {
        self.comm == Some::<Box<dyn CommHandler>>(Box::new(h))
    }

    /// Whether the schedule handler is `h`.
    pub closed spec fn holds_schedule<H: ScheduleHandler>(&self, h: H) -> bool {
        self.schedule == Some::<Box<dyn ScheduleHandler>>(Box::new(h))
    }

    /// Whether the callback for configuration updates is `f`.
    pub closed spec fn holds_callback<F: Fn(HashMap<String, String>) + Send + Sync + 'static>(
        &self,
        f: F,
    ) -> bool {
        exists|hook: FnHook<F>|
            hook.callback() == f && self.on_configure == Some::<Box<dyn ConfigureHook>>(
                Box::new(hook),
            )
    }

    /// The callback that the application's bridges hand configuration updates to.
    spec fn callback(&self) -> Option<&Box<dyn ConfigureHook>> {
        match self.on_configure {
            Some(hook) => Some(&hook),
            None => None,
        }
    }

    /// Whether the bridge hands configuration updates to the application's callback, and drops
    /// them exactly if the application has none.
    pub closed spec fn configures_tool(&self, bridge: ToolBridge) -> bool {
        bridge.carries(self.callback())
    }

    /// Whether the bridge hands configuration updates to the application's callback, and drops
    /// them exactly if the application has none.
    pub closed spec fn configures_channel(&self, bridge: ChannelBridge) -> bool {
        bridge.carries(self.callback())
    }

    /// Whether the bridge hands configuration updates to the application's callback, and drops
    /// them exactly if the application has none.
    pub closed spec fn configures_gateway(&self, bridge: GatewayBridge) -> bool {
        bridge.carries(self.callback())
    }

    /// Whether the bridge hands configuration updates to the application's callback, and drops
    /// them exactly if the application has none.
    pub closed spec fn configures_ui(&self, bridge: UiBridge) -> bool {
        bridge.carries(self.callback())
    }

    /// Whether the bridge hands configuration updates to the application's callback, and drops
    /// them exactly if the application has none.
    pub closed spec fn configures_comm(&self, bridge: CommBridge) -> bool {
        bridge.carries(self.callback())
    }

    /// Whether the bridge hands configuration updates to the application's callback, and drops
    /// them exactly if the application has none.
    pub closed spec fn configures_schedule(&self, bridge: ScheduleBridge) -> bool {
        bridge.carries(self.callback())
    }

    /// An application in the given environment, with nothing registered. An environment
    /// without a socket path is refused.
    pub fn new(env: AppEnv) -> (r: Result<Self, NeboError>)
        ensures
            r is Err <==> env.sock_path@.len() == 0,
            r matches Err(failure) ==> failure is NoSockPath,
            r matches Ok(app) ==> app@ == (NeboAppView {
                env: env@,
                registered: Set::empty(),
                configurable: false,
                pushes_views: false,
            }),
    {
        if env.sock_path.as_str().is_empty() {
            return Err(NeboError::NoSockPath);
        }
        let app = NeboApp {
            env,
            tool: None,
            channel: None,
            gateway: None,
            ui: None,
            ui_updates: None,
            comm: None,
            schedule: None,
            on_configure: None,
        };
        assert(app@.registered =~= Set::empty());
        Ok(app)
    }

    /// The application's environment. Its socket path is never empty.
    pub fn env(&self) -> (env: &AppEnv)
        ensures
            env@ == self@.env,
            env.sock_path@.len() > 0,
    {
        proof {
            use_type_invariant(self);
        }
        &self.env
    }

    /// Registers the callback that takes configuration updates from the host, in place of any
    /// registered before. The callback must take every update.
    pub fn on_configure<F: Fn(HashMap<String, String>) + Send + Sync + 'static>(self, f: F) -> (app:
        Self)
        requires
            forall|values: HashMap<String, String>| call_requires(f, (values,)),
        ensures
            app@ == (NeboAppView { configurable: true, ..self@ }),
            app.holds_callback(f),
    {
        proof {
            use_type_invariant(&self);
        }
        let mut app = self;
        let hook = FnHook::new(f);
        app.on_configure = Some(Box::new(hook));
        assert(app@.registered =~= self@.registered);
        assert(hook.callback() == f && app.on_configure == Some::<Box<dyn ConfigureHook>>(
            Box::new(hook),
        ));
        app
    }

    /// Registers the tool handler, in place of any registered before.
    pub fn register_tool(self, h: impl ToolHandler) -> (app: Self)
        ensures
            app@ == self@.with(Capability::Tool),
            app.holds_tool(h),
    {
        proof {
            use_type_invariant(&self);
        }
        let mut app = self;
        app.tool = Some(Box::new(h));
        assert(app@.registered =~= self@.registered.insert(Capability::Tool));
        app
    }

    /// Registers the channel handler, in place of any registered before.
    pub fn register_channel(self, h: impl ChannelHandler) -> (app: Self)
        ensures
            app@ == self@.with(Capability::Channel),
            app.holds_channel(h),
    {
        proof {
            use_type_invariant(&self);
        }
        let mut app = self;
        app.channel = Some(Box::new(h));
        assert(app@.registered =~= self@.registered.insert(Capability::Channel));
        app
    }

    /// Registers the gateway handler, in place of any registered before.
    pub fn register_gateway(self, h: impl GatewayHandler) -> (app: Self)
        ensures
            app@ == self@.with(Capability::Gateway),
            app.holds_gateway(h),
    {
        proof {
            use_type_invariant(&self);
        }
        let mut app = self;
        app.gateway = Some(Box::new(h));
        assert(app@.registered =~= self@.registered.insert(Capability::Gateway));
        app
    }

    /// Registers the UI handler, in place of any registered before.
    pub fn register_ui(self, h: impl UiHandler) -> (app: Self)
        ensures
            app@ == self@.with(Capability::Ui),
            app.holds_ui(h),
    {
        proof {
            use_type_invariant(&self);
        }
        let mut app = self;
        app.ui = Some(Box::new(h));
        assert(app@.registered =~= self@.registered.insert(Capability::Ui));
        app
    }

    /// Registers the handler that pushes views, in place of any registered before. The UI
    /// bridge opens its stream; without a UI handler there is no bridge to do so.
    pub fn register_ui_updates(self, h: impl UiHandlerWithStreaming) -> (app: Self)
        ensures
            app@ == (NeboAppView { pushes_views: true, ..self@ }),
            app.holds_ui_updates(h),
    {
        proof {
            use_type_invariant(&self);
        }
        let mut app = self;
        app.ui_updates = Some(Box::new(h));
        assert(app@.registered =~= self@.registered);
        app
    }

    /// Registers the comm handler, in place of any registered before.
    pub fn register_comm(self, h: impl CommHandler) -> (app: Self)
        ensures
            app@ == self@.with(Capability::Comm),
            app.holds_comm(h),
    {
        proof {
            use_type_invariant(&self);
        }
        let mut app = self;
        app.comm = Some(Box::new(h));
        assert(app@.registered =~= self@.registered.insert(Capability::Comm));
        app
    }

    /// Registers the schedule handler, in place of any registered before.
    pub fn register_schedule(self, h: impl ScheduleHandler) -> (app: Self)
        ensures
            app@ == self@.with(Capability::Schedule),
            app.holds_schedule(h),
    {
        proof {
            use_type_invariant(&self);
        }
        let mut app = self;
        app.schedule = Some(Box::new(h));
        assert(app@.registered =~= self@.registered.insert(Capability::Schedule));
        app
    }

    /// Whether a capability has a handler.
    pub fn has(&self, capability: Capability) -> (registered: bool)
        ensures
            registered == self@.registered.contains(capability),
    {
        match capability {
            Capability::Tool => self.tool.is_some(),
            Capability::Channel => self.channel.is_some(),
            Capability::Gateway => self.gateway.is_some(),
            Capability::Ui => self.ui.is_some(),
            Capability::Comm => self.comm.is_some(),
            Capability::Schedule => self.schedule.is_some(),
        }
    }

    /// The capabilities whose bridges the runtime installs: exactly those with a handler, in a
    /// fixed order.
    pub fn installed(&self) -> (capabilities: Vec<Capability>)
        ensures
            capabilities@ == self@.installed(),
    {
        let mut capabilities: Vec<Capability> = Vec::new();
        if self.tool.is_some() {
            capabilities.push(Capability::Tool);
        }
        if self.channel.is_some() {
            capabilities.push(Capability::Channel);
        }
        if self.gateway.is_some() {
            capabilities.push(Capability::Gateway);
        }
        if self.ui.is_some() {
            capabilities.push(Capability::Ui);
        }
        if self.comm.is_some() {
            capabilities.push(Capability::Comm);
        }
        if self.schedule.is_some() {
            capabilities.push(Capability::Schedule);
        }
        assert(capabilities@ =~= self@.installed());
        capabilities
    }

    /// The life of the runtime for this application, not yet started. It is ready to run
    /// exactly if a capability has a handler.
    pub fn lifecycle(&self) -> (life: Lifecycle)
        ensures
            life@ == self@.plan(),
    {
        let ready = self.tool.is_some() || self.channel.is_some() || self.gateway.is_some()
            || self.ui.is_some() || self.comm.is_some() || self.schedule.is_some();
        proof {
            if self.tool is Some {
                assert(self@.registered.contains(Capability::Tool));
            }
            if self.channel is Some {
                assert(self@.registered.contains(Capability::Channel));
            }
            if self.gateway is Some {
                assert(self@.registered.contains(Capability::Gateway));
            }
            if self.ui is Some {
                assert(self@.registered.contains(Capability::Ui));
            }
            if self.comm is Some {
                assert(self@.registered.contains(Capability::Comm));
            }
            if self.schedule is Some {
                assert(self@.registered.contains(Capability::Schedule));
            }
        }
        Lifecycle::new(ready, self.env.name.clone(), self.env.sock_path.clone())
    }

    /// Answers a health check on the bridge of a capability: alive, under the environment's
    /// name and version, if the capability has a handler; there is no bridge to ask otherwise.
    pub fn health_check(&self, capability: Capability) -> (r: Option<HealthCheckResponse>)
        ensures
            r is Some <==> self@.registered.contains(capability),
            r matches Some(health) ==> health@ == healthy(self@.env),
    {
        if self.has(capability) {
            Some(health_report(&self.env))
        } else {
            None
        }
    }

    /// The bridge of the tool capability, if it has a handler. The bridge answers health checks
    /// from the application's environment and hands configuration updates to the application's
    /// callback.
    pub fn tool(&self) -> (bridge: Option<ToolBridge<'_>>)
        ensures
            bridge is Some <==> self@.registered.contains(Capability::Tool),
            bridge matches Some(b) ==> b.env() == self@.env,
            bridge matches Some(b) ==> self.configures_tool(b),
            bridge matches Some(b) ==> b.configurable() == self@.configurable,
    {
        let hook: Option<&Box<dyn ConfigureHook>> = match &self.on_configure {
            Some(hook) => Some(hook),
            None => None,
        };
        match &self.tool {
            Some(handler) => Some(ToolBridge::with_hook(&**handler, &self.env, hook)),
            None => None,
        }
    }

    /// The bridge of the channel capability, if it has a handler. The bridge answers health checks
    /// from the application's environment and hands configuration updates to the application's
    /// callback.
    pub fn channel(&self) -> (bridge: Option<ChannelBridge<'_>>)
        ensures
            bridge is Some <==> self@.registered.contains(Capability::Channel),
            bridge matches Some(b) ==> b.env() == self@.env,
            bridge matches Some(b) ==> self.configures_channel(b),
            bridge matches Some(b) ==> b.configurable() == self@.configurable,
    {
        let hook: Option<&Box<dyn ConfigureHook>> = match &self.on_configure {
            Some(hook) => Some(hook),
            None => None,
        };
        match &self.channel {
            Some(handler) => Some(ChannelBridge::with_hook(&**handler, &self.env, hook)),
            None => None,
        }
    }

    /// The bridge of the gateway capability, if it has a handler. The bridge answers health checks
    /// from the application's environment and hands configuration updates to the application's
    /// callback.
    pub fn gateway(&self) -> (bridge: Option<GatewayBridge<'_>>)
        ensures
            bridge is Some <==> self@.registered.contains(Capability::Gateway),
            bridge matches Some(b) ==> b.env() == self@.env,
            bridge matches Some(b) ==> self.configures_gateway(b),
            bridge matches Some(b) ==> b.configurable() == self@.configurable,
    {
        let hook: Option<&Box<dyn ConfigureHook>> = match &self.on_configure {
            Some(hook) => Some(hook),
            None => None,
        };
        match &self.gateway {
            Some(handler) => Some(GatewayBridge::with_hook(&**handler, &self.env, hook)),
            None => None,
        }
    }

    /// The bridge of the UI capability, if it has a handler. The bridge answers health checks
    /// from the application's environment and hands configuration updates to the application's
    /// callback.
    pub fn ui(&self) -> (bridge: Option<UiBridge<'_>>)
        ensures
            bridge is Some <==> self@.registered.contains(Capability::Ui),
            bridge matches Some(b) ==> b.env() == self@.env,
            bridge matches Some(b) ==> self.configures_ui(b),
            bridge matches Some(b) ==> b.configurable() == self@.configurable,
            bridge matches Some(b) ==> b.pushes() == self@.pushes_views,
    {
        let hook: Option<&Box<dyn ConfigureHook>> = match &self.on_configure {
            Some(hook) => Some(hook),
            None => None,
        };
        let updates: Option<&dyn UiHandlerWithStreaming> = match &self.ui_updates {
            Some(updates) => Some(&**updates),
            None => None,
        };
        match &self.ui {
            Some(handler) => Some(UiBridge::with_hook(&**handler, updates, &self.env, hook)),
            None => None,
        }
    }

    /// The bridge of the comm capability, if it has a handler. The bridge answers health checks
    /// from the application's environment and hands configuration updates to the application's
    /// callback.
    pub fn comm(&self) -> (bridge: Option<CommBridge<'_>>)
        ensures
            bridge is Some <==> self@.registered.contains(Capability::Comm),
            bridge matches Some(b) ==> b.env() == self@.env,
            bridge matches Some(b) ==> self.configures_comm(b),
            bridge matches Some(b) ==> b.configurable() == self@.configurable,
    {
        let hook: Option<&Box<dyn ConfigureHook>> = match &self.on_configure {
            Some(hook) => Some(hook),
            None => None,
        };
        match &self.comm {
            Some(handler) => Some(CommBridge::with_hook(&**handler, &self.env, hook)),
            None => None,
        }
    }

    /// The bridge of the schedule capability, if it has a handler. The bridge answers health checks
    /// from the application's environment and hands configuration updates to the application's
    /// callback.
    pub fn schedule(&self) -> (bridge: Option<ScheduleBridge<'_>>)
        ensures
            bridge is Some <==> self@.registered.contains(Capability::Schedule),
            bridge matches Some(b) ==> b.env() == self@.env,
            bridge matches Some(b) ==> self.configures_schedule(b),
            bridge matches Some(b) ==> b.configurable() == self@.configurable,
    {
        let hook: Option<&Box<dyn ConfigureHook>> = match &self.on_configure {
            Some(hook) => Some(hook),
            None => None,
        };
        match &self.schedule {
            Some(handler) => Some(ScheduleBridge::with_hook(&**handler, &self.env, hook)),
            None => None,
        }
    }
}

/// Fail fast: the runtime of an application that registered no capability answers the request
/// to run with the failure that says so, which is one of configuration, and whatever is
/// reported, it never removes a file, binds or serves.
pub proof fn lemma_nothing_registered_nothing_bound(app: NeboAppView, events: Seq<LifecycleEvent>)
    requires
        app.registered =~= Set::empty(),
        events.len() > 0,
    ensures
        app.plan().answer(LifecycleEvent::Start) == ActionView::Fail(NeboError::NoHandlers),
        NeboError::NoHandlers.is_configuration(),
        !touches_transport(app.plan().last_answer(events)),
{
    lemma_without_handlers_nothing_is_bound(app.plan(), events);
}

/// The installed capabilities are exactly the registered ones, each once.
pub proof fn lemma_installed_are_the_registered(app: NeboAppView, capability: Capability)
    ensures
        app.installed().contains(capability) <==> app.registered.contains(capability),
        app.installed().no_duplicates(),
{
    if app.registered.contains(capability) {
        lemma_position(app, capability);
    }
    lemma_ranks_rise(app);
}

/// A registered capability stands somewhere among the installed ones.
proof fn lemma_position(app: NeboAppView, capability: Capability)
    requires
        app.registered.contains(capability),
    ensures
        exists|i: int| 0 <= i < app.installed().len() && app.installed()[i] == capability,
{
    let a = app.pick(Capability::Tool);
    let b = a + app.pick(Capability::Channel);
    let c = b + app.pick(Capability::Gateway);
    let d = c + app.pick(Capability::Ui);
    let e = d + app.pick(Capability::Comm);
    let f = e + app.pick(Capability::Schedule);
    let at: int = match capability {
        Capability::Tool => 0,
        Capability::Channel => a.len() as int,
        Capability::Gateway => b.len() as int,
        Capability::Ui => c.len() as int,
        Capability::Comm => d.len() as int,
        Capability::Schedule => e.len() as int,
    };
    assert(f == app.installed());
    assert(0 <= at < f.len() && f[at] == capability);
}

/// The place of a capability in the fixed order.
pub open spec fn rank(capability: Capability) -> int {
    match capability {
        Capability::Tool => 0,
        Capability::Channel => 1,
        Capability::Gateway => 2,
        Capability::Ui => 3,
        Capability::Comm => 4,
        Capability::Schedule => 5,
    }
}

/// Along the installed capabilities the places in the fixed order rise.
proof fn lemma_ranks_rise(app: NeboAppView)
    ensures
        forall|i: int, j: int|
            0 <= i < j < app.installed().len() ==> rank(#[trigger] app.installed()[i]) < rank(
                #[trigger] app.installed()[j],
            ),
{
    let a = app.pick(Capability::Tool);
    let b = a + app.pick(Capability::Channel);
    let c = b + app.pick(Capability::Gateway);
    let d = c + app.pick(Capability::Ui);
    let e = d + app.pick(Capability::Comm);
    let f = e + app.pick(Capability::Schedule);
    assert(forall|k: int| 0 <= k < a.len() ==> rank(#[trigger] a[k]) <= 0);
    assert(forall|k: int| 0 <= k < b.len() ==> rank(#[trigger] b[k]) <= 1);
    assert(forall|k: int| 0 <= k < c.len() ==> rank(#[trigger] c[k]) <= 2);
    assert(forall|k: int| 0 <= k < d.len() ==> rank(#[trigger] d[k]) <= 3);
    assert(forall|k: int| 0 <= k < e.len() ==> rank(#[trigger] e[k]) <= 4);
    assert(forall|i: int, j: int| 0 <= i < j < b.len() ==> rank(#[trigger] b[i]) < rank(#[trigger] b[j]));
    assert(forall|i: int, j: int| 0 <= i < j < c.len() ==> rank(#[trigger] c[i]) < rank(#[trigger] c[j]));
    assert(forall|i: int, j: int| 0 <= i < j < d.len() ==> rank(#[trigger] d[i]) < rank(#[trigger] d[j]));
    assert(forall|i: int, j: int| 0 <= i < j < e.len() ==> rank(#[trigger] e[i]) < rank(#[trigger] e[j]));
    assert(forall|i: int, j: int| 0 <= i < j < f.len() ==> rank(#[trigger] f[i]) < rank(#[trigger] f[j]));
}

} // verus!
