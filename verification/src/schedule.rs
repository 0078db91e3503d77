//! The schedule capability: jobs that the plugin runs on a schedule for the host.

use vstd::prelude::*;
use std::collections::HashMap;
use tokio::sync::mpsc::Receiver;
use crate::bridge::health_report;
use crate::bridge::healthy;
use crate::bridge::delivered;
use crate::bridge::push_settings;
use crate::bridge::ConfigureHook;
use crate::env::AppEnv;
use crate::env::AppEnvView;
use crate::error::NeboError;
use crate::error::TransportFault;
use crate::model::views;
use crate::relay::open_stream;
use crate::relay::opens_as;
use crate::relay::Outbound;
use crate::relay::StreamSetup;
use crate::wire::common::HealthCheckResponse;
use crate::wire::schedule::DeleteScheduleResponse;
use crate::wire::schedule::DeleteScheduleResponseView;
use crate::wire::schedule::ListSchedulesRequest;
use crate::wire::schedule::ListSchedulesResponse;
use crate::wire::schedule::ListSchedulesResponseView;
use crate::wire::schedule::ScheduleHistoryRequest;
use crate::wire::schedule::ScheduleHistoryResponse;
use crate::wire::schedule::ScheduleHistoryResponseView;
use crate::wire::schedule::ScheduleResponse;
use crate::wire::schedule::ScheduleResponseView;
use crate::wire::schedule::ScheduleTriggerView;
use crate::wire::schedule::TriggerResponse;
use crate::wire::schedule::TriggerResponseView;

pub use crate::wire::schedule::CreateScheduleRequest;
pub use crate::wire::schedule::Schedule;
pub use crate::wire::schedule::ScheduleHistoryEntry;
pub use crate::wire::schedule::ScheduleTrigger;
pub use crate::wire::schedule::UpdateScheduleRequest;

verus! {

/// How many notices may wait for the host before the handler is held back.
pub const TRIGGER_QUEUE: usize = 100;

/// What an application implements to run jobs on a schedule for the host.
pub trait ScheduleHandler: Send + Sync + 'static {
    /// Creates a schedule.
    fn create(&self, request: CreateScheduleRequest) -> Result<Schedule, NeboError>;

    /// The schedule of the given name.
    fn get(&self, name: &str) -> Result<Schedule, NeboError>;

    /// A page of the schedules, and how many there are in all.
    fn list(&self, limit: i32, offset: i32, enabled_only: bool) -> Result<
        (Vec<Schedule>, i64),
        NeboError,
    >;

    /// Changes a schedule.
    fn update(&self, request: UpdateScheduleRequest) -> Result<Schedule, NeboError>;

    /// Deletes the schedule of the given name.
    fn delete(&self, name: &str) -> Result<(), NeboError>;

    /// Lets the schedule of the given name fire again.
    fn enable(&self, name: &str) -> Result<Schedule, NeboError>;

    /// Keeps the schedule of the given name from firing.
    fn disable(&self, name: &str) -> Result<Schedule, NeboError>;

    /// Fires the schedule of the given name now; says whether the job succeeded, and what it
    /// put out.
    fn trigger(&self, name: &str) -> Result<(bool, String), NeboError>;

    /// A page of the past runs of a schedule, and how many there are in all.
    fn history(&self, name: &str, limit: i32, offset: i32) -> Result<
        (Vec<ScheduleHistoryEntry>, i64),
        NeboError,
    >;

    /// Opens the stream of notices that schedules have fired.
    fn triggers(&self) -> Result<Receiver<ScheduleTrigger>, NeboError>;
}

/// Whether `outcome` is what the handler's `create` returns for these arguments.
pub open spec fn says_create<H: ScheduleHandler + ?Sized>(
    handler: &H,
    request: CreateScheduleRequest,
    outcome: Result<Schedule, NeboError>,
) -> bool {
    call_ensures(H::create, (handler, request,), outcome)
}

/// Whether `outcome` is what the handler's `get` returns for these arguments.
pub open spec fn says_get<H: ScheduleHandler + ?Sized>(
    handler: &H,
    name: &str,
    outcome: Result<Schedule, NeboError>,
) -> bool {
    call_ensures(H::get, (handler, name,), outcome)
}

/// Whether `outcome` is what the handler's `list` returns for these arguments.
pub open spec fn says_list<H: ScheduleHandler + ?Sized>(
    handler: &H,
    limit: i32,
    offset: i32,
    enabled_only: bool,
    outcome: Result<(Vec<Schedule>, i64), NeboError>,
) -> bool {
    call_ensures(H::list, (handler, limit, offset, enabled_only,), outcome)
}

/// Whether `outcome` is what the handler's `update` returns for these arguments.
pub open spec fn says_update<H: ScheduleHandler + ?Sized>(
    handler: &H,
    request: UpdateScheduleRequest,
    outcome: Result<Schedule, NeboError>,
) -> bool {
    call_ensures(H::update, (handler, request,), outcome)
}

/// Whether `outcome` is what the handler's `delete` returns for these arguments.
pub open spec fn says_delete<H: ScheduleHandler + ?Sized>(
    handler: &H,
    name: &str,
    outcome: Result<(), NeboError>,
) -> bool {
    call_ensures(H::delete, (handler, name,), outcome)
}

/// Whether `outcome` is what the handler's `enable` returns for these arguments.
pub open spec fn says_enable<H: ScheduleHandler + ?Sized>(
    handler: &H,
    name: &str,
    outcome: Result<Schedule, NeboError>,
) -> bool {
    call_ensures(H::enable, (handler, name,), outcome)
}

/// Whether `outcome` is what the handler's `disable` returns for these arguments.
pub open spec fn says_disable<H: ScheduleHandler + ?Sized>(
    handler: &H,
    name: &str,
    outcome: Result<Schedule, NeboError>,
) -> bool {
    call_ensures(H::disable, (handler, name,), outcome)
}

/// Whether `outcome` is what the handler's `trigger` returns for these arguments.
pub open spec fn says_trigger<H: ScheduleHandler + ?Sized>(
    handler: &H,
    name: &str,
    outcome: Result<(bool, String), NeboError>,
) -> bool {
    call_ensures(H::trigger, (handler, name,), outcome)
}

/// Whether `outcome` is what the handler's `history` returns for these arguments.
pub open spec fn says_history<H: ScheduleHandler + ?Sized>(
    handler: &H,
    name: &str,
    limit: i32,
    offset: i32,
    outcome: Result<(Vec<ScheduleHistoryEntry>, i64), NeboError>,
) -> bool {
    call_ensures(H::history, (handler, name, limit, offset,), outcome)
}

/// Whether `opened` is what the handler's `triggers` returns.
pub open spec fn says_triggers<H: ScheduleHandler + ?Sized>(
    handler: &H,
    opened: Result<Receiver<ScheduleTrigger>, NeboError>,
) -> bool {
    call_ensures(H::triggers, (handler,), opened)
}

/// The answer to a request that yields a schedule: the schedule and no error on success, no
/// schedule and what the failure reports on failure.
pub open spec fn schedule_reply_of(outcome: Result<Schedule, NeboError>) -> ScheduleResponseView {
    match outcome {
        Ok(schedule) => ScheduleResponseView { schedule: Some(schedule@), error: Seq::empty() },
        Err(failure) => ScheduleResponseView { schedule: None, error: failure.report() },
    }
}

/// Encodes the outcome of a request that yields a schedule.
pub fn schedule_response(outcome: Result<Schedule, NeboError>) -> (r: ScheduleResponse)
    ensures
        r@ == schedule_reply_of(outcome),
{
    match outcome {
        Ok(schedule) => ScheduleResponse { schedule: Some(schedule), error: String::new() },
        Err(failure) => ScheduleResponse { schedule: None, error: failure.report_text() },
    }
}

/// The answer to a request to list schedules: the page and the total on success, an empty page
/// and a total of zero on failure.
pub open spec fn list_reply_of(outcome: Result<(Vec<Schedule>, i64), NeboError>)
    -> ListSchedulesResponseView {
    match outcome {
        Ok(page) => ListSchedulesResponseView { schedules: views(page.0@), total: page.1 },
        Err(_) => ListSchedulesResponseView { schedules: Seq::empty(), total: 0 },
    }
}

/// Encodes the outcome of a request to list schedules.
pub fn list_response(outcome: Result<(Vec<Schedule>, i64), NeboError>) -> (r:
    ListSchedulesResponse)
    ensures
        r@ == list_reply_of(outcome),
{
    match outcome {
        Ok((schedules, total)) => ListSchedulesResponse { schedules, total },
        Err(_) => {
            let r = ListSchedulesResponse { schedules: Vec::new(), total: 0 };
            assert(r@.schedules =~= Seq::empty());
            r
        },
    }
}

/// The answer to a request to delete: success and no error, or no success and what the
/// failure reports.
pub open spec fn delete_reply_of(outcome: Result<(), NeboError>) -> DeleteScheduleResponseView {
    match outcome {
        Ok(_) => DeleteScheduleResponseView { success: true, error: Seq::empty() },
        Err(failure) => DeleteScheduleResponseView { success: false, error: failure.report() },
    }
}

/// Encodes the outcome of a request to delete.
pub fn delete_response(outcome: Result<(), NeboError>) -> (r: DeleteScheduleResponse)
    ensures
        r@ == delete_reply_of(outcome),
{
    match outcome {
        Ok(_) => DeleteScheduleResponse { success: true, error: String::new() },
        Err(failure) => DeleteScheduleResponse { success: false, error: failure.report_text() },
    }
}

/// The answer to a request to fire a schedule now: what the job reported and no error, or no
/// success, no output and what the failure reports.
pub open spec fn trigger_reply_of(outcome: Result<(bool, String), NeboError>)
    -> TriggerResponseView {
    match outcome {
        Ok(fired) => TriggerResponseView {
            success: fired.0,
            output: fired.1@,
            error: Seq::empty(),
        },
        Err(failure) => TriggerResponseView {
            success: false,
            output: Seq::empty(),
            error: failure.report(),
        },
    }
}

/// Encodes the outcome of a request to fire a schedule now.
pub fn trigger_response(outcome: Result<(bool, String), NeboError>) -> (r: TriggerResponse)
    ensures
        r@ == trigger_reply_of(outcome),
{
    match outcome {
        Ok((success, output)) => TriggerResponse { success, output, error: String::new() },
        Err(failure) => TriggerResponse {
            success: false,
            output: String::new(),
            error: failure.report_text(),
        },
    }
}

/// The answer to a request for past runs: the page and the total on success, an empty page and
/// a total of zero on failure.
pub open spec fn history_reply_of(outcome: Result<(Vec<ScheduleHistoryEntry>, i64), NeboError>)
    -> ScheduleHistoryResponseView {
    match outcome {
        Ok(page) => ScheduleHistoryResponseView { entries: views(page.0@), total: page.1 },
        Err(_) => ScheduleHistoryResponseView { entries: Seq::empty(), total: 0 },
    }
}

/// Encodes the outcome of a request for past runs.
pub fn history_response(outcome: Result<(Vec<ScheduleHistoryEntry>, i64), NeboError>) -> (r:
    ScheduleHistoryResponse)
    ensures
        r@ == history_reply_of(outcome),
{
    match outcome {
        Ok((entries, total)) => ScheduleHistoryResponse { entries, total },
        Err(_) => {
            let r = ScheduleHistoryResponse { entries: Vec::new(), total: 0 };
            assert(r@.entries =~= Seq::empty());
            r
        },
    }
}

impl Outbound for ScheduleTrigger {
    type Wire = ScheduleTrigger;

    open spec fn on_wire(native: ScheduleTriggerView) -> ScheduleTriggerView {
        native
    }

    fn into_wire(self) -> (wire: ScheduleTrigger) {
        self
    }
}

/// The bridge between a schedule handler and the schedule service.
pub struct ScheduleBridge<'a> {
    handler: &'a dyn ScheduleHandler,
    env: &'a AppEnv,
    hook: Option<&'a Box<dyn ConfigureHook>>,
}

impl<'a> ScheduleBridge<'a> {
    /// The environment that the bridge answers health checks from.
    pub closed spec fn env(&self) -> AppEnvView {
        self.env@
    }

    /// Whether the bridge has a callback to hand configuration updates to.
    pub closed spec fn configurable(&self) -> bool {
        self.hook is Some
    }

    /// Whether an update with these values was handed to the bridge's callback, where the
    /// bridge has one.
    pub closed spec fn hands_over(&self, values: HashMap<String, String>) -> bool {
        delivered(self.hook, values)
    }

    /// Whether `hook` is the callback that the bridge hands configuration updates to.
    pub(crate) closed spec fn carries(&self, hook: Option<&Box<dyn ConfigureHook>>) -> bool {
        self.hook == hook
    }

    /// Whether `outcome` is what the bridge's handler returns from `create` for these arguments.
    pub closed spec fn handler_create(
        &self,
        request: CreateScheduleRequest,
        outcome: Result<Schedule, NeboError>,
    ) -> bool {
        says_create(self.handler, request, outcome)
    }

    /// Whether `outcome` is what the bridge's handler returns from `get` for these arguments.
    pub closed spec fn handler_get(
        &self,
        name: &str,
        outcome: Result<Schedule, NeboError>,
    ) -> bool {
        says_get(self.handler, name, outcome)
    }

    /// Whether `outcome` is what the bridge's handler returns from `list` for these arguments.
    pub closed spec fn handler_list(
        &self,
        limit: i32,
        offset: i32,
        enabled_only: bool,
        outcome: Result<(Vec<Schedule>, i64), NeboError>,
    ) -> bool {
        says_list(self.handler, limit, offset, enabled_only, outcome)
    }

    /// Whether `outcome` is what the bridge's handler returns from `update` for these arguments.
    pub closed spec fn handler_update(
        &self,
        request: UpdateScheduleRequest,
        outcome: Result<Schedule, NeboError>,
    ) -> bool {
        says_update(self.handler, request, outcome)
    }

    /// Whether `outcome` is what the bridge's handler returns from `delete` for these arguments.
    pub closed spec fn handler_delete(&self, name: &str, outcome: Result<(), NeboError>) -> bool {
        says_delete(self.handler, name, outcome)
    }

    /// Whether `outcome` is what the bridge's handler returns from `enable` for these arguments.
    pub closed spec fn handler_enable(
        &self,
        name: &str,
        outcome: Result<Schedule, NeboError>,
    ) -> bool {
        says_enable(self.handler, name, outcome)
    }

    /// Whether `outcome` is what the bridge's handler returns from `disable` for these arguments.
    pub closed spec fn handler_disable(
        &self,
        name: &str,
        outcome: Result<Schedule, NeboError>,
    ) -> bool {
        says_disable(self.handler, name, outcome)
    }

    /// Whether `outcome` is what the bridge's handler returns from `trigger` for these arguments.
    pub closed spec fn handler_trigger(
        &self,
        name: &str,
        outcome: Result<(bool, String), NeboError>,
    ) -> bool {
        says_trigger(self.handler, name, outcome)
    }

    /// Whether `outcome` is what the bridge's handler returns from `history` for these arguments.
    pub closed spec fn handler_history(
        &self,
        name: &str,
        limit: i32,
        offset: i32,
        outcome: Result<(Vec<ScheduleHistoryEntry>, i64), NeboError>,
    ) -> bool {
        says_history(self.handler, name, limit, offset, outcome)
    }

    /// Whether `opened` is what the bridge's handler returns from `triggers`.
    pub closed spec fn handler_triggers(
        &self,
        opened: Result<Receiver<ScheduleTrigger>, NeboError>,
    ) -> bool {
        says_triggers(self.handler, opened)
    }

    /// A bridge for the handler, in the given environment, without a callback for
    /// configuration updates.
    pub fn new(handler: &'a dyn ScheduleHandler, env: &'a AppEnv) -> (bridge: Self)
        ensures
            bridge.env() == env@,
            !bridge.configurable(),
    {
        ScheduleBridge { handler, env, hook: None }
    }

    pub(crate) fn with_hook(
        handler: &'a dyn ScheduleHandler,
        env: &'a AppEnv,
        hook: Option<&'a Box<dyn ConfigureHook>>,
    ) -> (bridge: Self)
        ensures
            bridge.env() == env@,
            bridge.carries(hook),
            bridge.configurable() == hook is Some,
    {
        ScheduleBridge { handler, env, hook }
    }

    /// Answers a health check: alive, under the environment's name and version, whatever state
    /// the handler is in.
    pub fn health_check(&self) -> (r: HealthCheckResponse)
        ensures
            r@ == healthy(self.env()),
    {
        health_report(self.env)
    }

    /// Asks the handler once to create a schedule. A failure is reported in the answer.
    pub fn create(&self, request: CreateScheduleRequest) -> (r: ScheduleResponse)
        ensures
            exists|outcome: Result<Schedule, NeboError>|
                self.handler_create(request, outcome) && r@ == schedule_reply_of(outcome),
    {
        let outcome = self.handler.create(request);
        let r = schedule_response(outcome);
        assert(self.handler_create(request, outcome) && r@ == schedule_reply_of(outcome));
        r
    }

    /// Asks the handler once for a schedule. A failure is reported in the answer.
    pub fn get(&self, name: &str) -> (r: ScheduleResponse)
        ensures
            exists|outcome: Result<Schedule, NeboError>|
                self.handler_get(name, outcome) && r@ == schedule_reply_of(outcome),
    {
        let outcome = self.handler.get(name);
        let r = schedule_response(outcome);
        assert(self.handler_get(name, outcome) && r@ == schedule_reply_of(outcome));
        r
    }

    /// Asks the handler once for a page of schedules. On failure the page is empty.
    pub fn list(&self, request: &ListSchedulesRequest) -> (r: ListSchedulesResponse)
        ensures
            exists|outcome: Result<(Vec<Schedule>, i64), NeboError>|
                self.handler_list(request.limit, request.offset, request.enabled_only, outcome)
                    && r@ == list_reply_of(outcome),
    {
        let outcome = self.handler.list(request.limit, request.offset, request.enabled_only);
        let r = list_response(outcome);
        assert(self.handler_list(request.limit, request.offset, request.enabled_only, outcome)
            && r@ == list_reply_of(outcome));
        r
    }

    /// Asks the handler once to change a schedule. A failure is reported in the answer.
    pub fn update(&self, request: UpdateScheduleRequest) -> (r: ScheduleResponse)
        ensures
            exists|outcome: Result<Schedule, NeboError>|
                self.handler_update(request, outcome) && r@ == schedule_reply_of(outcome),
    {
        let outcome = self.handler.update(request);
        let r = schedule_response(outcome);
        assert(self.handler_update(request, outcome) && r@ == schedule_reply_of(outcome));
        r
    }

    /// Asks the handler once to delete a schedule. A failure is reported in the answer.
    pub fn delete(&self, name: &str) -> (r: DeleteScheduleResponse)
        ensures
            exists|outcome: Result<(), NeboError>|
                self.handler_delete(name, outcome) && r@ == delete_reply_of(outcome),
    {
        let outcome = self.handler.delete(name);
        let r = delete_response(outcome);
        assert(self.handler_delete(name, outcome) && r@ == delete_reply_of(outcome));
        r
    }

    /// Asks the handler once to enable a schedule. A failure is reported in the answer.
    pub fn enable(&self, name: &str) -> (r: ScheduleResponse)
        ensures
            exists|outcome: Result<Schedule, NeboError>|
                self.handler_enable(name, outcome) && r@ == schedule_reply_of(outcome),
    {
        let outcome = self.handler.enable(name);
        let r = schedule_response(outcome);
        assert(self.handler_enable(name, outcome) && r@ == schedule_reply_of(outcome));
        r
    }

    /// Asks the handler once to disable a schedule. A failure is reported in the answer.
    pub fn disable(&self, name: &str) -> (r: ScheduleResponse)
        ensures
            exists|outcome: Result<Schedule, NeboError>|
                self.handler_disable(name, outcome) && r@ == schedule_reply_of(outcome),
    {
        let outcome = self.handler.disable(name);
        let r = schedule_response(outcome);
        assert(self.handler_disable(name, outcome) && r@ == schedule_reply_of(outcome));
        r
    }

    /// Asks the handler once to fire a schedule now. A failure is reported in the answer.
    pub fn trigger(&self, name: &str) -> (r: TriggerResponse)
        ensures
            exists|outcome: Result<(bool, String), NeboError>|
                self.handler_trigger(name, outcome) && r@ == trigger_reply_of(outcome),
    {
        let outcome = self.handler.trigger(name);
        let r = trigger_response(outcome);
        assert(self.handler_trigger(name, outcome) && r@ == trigger_reply_of(outcome));
        r
    }

    /// Asks the handler once for a page of past runs. On failure the page is empty.
    pub fn history(&self, request: &ScheduleHistoryRequest) -> (r: ScheduleHistoryResponse)
        ensures
            exists|name: &str, outcome: Result<(Vec<ScheduleHistoryEntry>, i64), NeboError>|
                name@ == request.name@
                    && self.handler_history(name, request.limit, request.offset, outcome)
                    && r@ == history_reply_of(outcome),
    {
        let name = request.name.as_str();
        let outcome = self.handler.history(name, request.limit, request.offset);
        let r = history_response(outcome);
        assert(name@ == request.name@
            && self.handler_history(name, request.limit, request.offset, outcome)
            && r@ == history_reply_of(outcome));
        r
    }

    /// Asks the handler once to open its stream of notices. Where the handler refuses, the call
    /// fails on the transport.
    pub fn triggers(&self) -> (r: Result<StreamSetup<Receiver<ScheduleTrigger>>, TransportFault>)
        ensures
            exists|opened: Result<Receiver<ScheduleTrigger>, NeboError>|
                self.handler_triggers(opened) && opens_as(opened, TRIGGER_QUEUE, r),
    {
        let opened = self.handler.triggers();
        let r = open_stream(opened, TRIGGER_QUEUE);
        assert(self.handler_triggers(opened) && opens_as(opened, TRIGGER_QUEUE, r));
        r
    }

    /// Hands a configuration update to the bridge's callback, once. A bridge without a
    /// callback drops the update. The call cannot fail.
    pub fn configure(&self, values: HashMap<String, String>)
        ensures
            self.hands_over(values),
    {
        push_settings(self.hook, values)
    }
}

} // verus!
