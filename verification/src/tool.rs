//! The tool capability: something the host can call with an input and get a text back from.

use vstd::prelude::*;
use std::collections::HashMap;
use crate::bridge::health_report;
use crate::bridge::healthy;
use crate::bridge::delivered;
use crate::bridge::push_settings;
use crate::bridge::ConfigureHook;
use crate::env::AppEnv;
use crate::env::AppEnvView;
use crate::error::NeboError;
use crate::json::decode_input;
use crate::json::document;
use crate::json::encode;
use crate::json::parsed_or_empty;
use crate::json::written_or_empty;
use crate::wire::common::HealthCheckResponse;
use crate::wire::tool::ExecuteResponse;
use crate::wire::tool::ExecuteResponseView;

verus! {

/// What an application implements to offer the host a tool.
pub trait ToolHandler: Send + Sync + 'static {
    /// The name of the tool.
    fn name(&self) -> &str;

    /// What the tool does, for a reader.
    fn description(&self) -> &str;

    /// The schema of the input that the tool accepts.
    fn schema(&self) -> serde_json::Value;

    /// Runs the tool on an input.
    fn execute(&self, input: serde_json::Value) -> Result<String, NeboError>;

    /// Whether a person must approve each run of the tool. A handler that says nothing of it
    /// asks for no approval.
    fn requires_approval(&self) -> (approval: bool)
        default_ensures
            !approval,
    {
        false
    }
}

/// Whether `given` is what the handler's `name` returns.
pub open spec fn says_name<H: ToolHandler + ?Sized>(handler: &H, given: &str) -> bool {
    call_ensures(H::name, (handler,), given)
}

/// Whether `given` is what the handler's `description` returns.
pub open spec fn says_description<H: ToolHandler + ?Sized>(handler: &H, given: &str) -> bool {
    call_ensures(H::description, (handler,), given)
}

/// Whether `approval` is what the handler's `requires_approval` returns.
pub open spec fn says_approval<H: ToolHandler + ?Sized>(handler: &H, approval: bool) -> bool {
    call_ensures(H::requires_approval, (handler,), approval)
}

/// Whether `schema` is what the handler's `schema` returns.
pub open spec fn says_schema<H: ToolHandler + ?Sized>(
    handler: &H,
    schema: serde_json::Value,
) -> bool {
    call_ensures(H::schema, (handler,), schema)
}

/// Whether `outcome` is what the handler's `execute` returns for these arguments.
pub open spec fn says_execute<H: ToolHandler + ?Sized>(
    handler: &H,
    input: serde_json::Value,
    outcome: Result<String, NeboError>,
) -> bool {
    call_ensures(H::execute, (handler, input,), outcome)
}

/// The answer to a request to execute: the tool's text on success; on failure what the
/// failure reports, marked as an error.
pub open spec fn execute_reply_of(outcome: Result<String, NeboError>) -> ExecuteResponseView {
    match outcome {
        Ok(content) => ExecuteResponseView { content: content@, is_error: false },
        Err(failure) => ExecuteResponseView { content: failure.report(), is_error: true },
    }
}

/// Encodes what the tool made of its input.
pub fn execute_response(outcome: Result<String, NeboError>) -> (r: ExecuteResponse)
    ensures
        r@ == execute_reply_of(outcome),
{
    match outcome {
        Ok(content) => ExecuteResponse { content, is_error: false },
        Err(failure) => ExecuteResponse { content: failure.report_text(), is_error: true },
    }
}

/// The bridge between a tool handler and the tool service.
pub struct ToolBridge<'a> {
    handler: &'a dyn ToolHandler,
    env: &'a AppEnv,
    hook: Option<&'a Box<dyn ConfigureHook>>,
}

impl<'a> ToolBridge<'a> {
    /// The environment that the bridge answers health checks from.
    pub closed spec fn env(&self) -> AppEnvView {
        self.env@
    }

    /// Whether the bridge has a callback to hand configuration updates to.
    pub closed spec fn configurable(&self) -> bool {
        self.hook is Some
    }

    /// Whether an update with these values was handed to the bridge's callback, where the
    /// bridge has one.
    pub closed spec fn hands_over(&self, values: HashMap<String, String>) -> bool {
        delivered(self.hook, values)
    }

    /// Whether `hook` is the callback that the bridge hands configuration updates to.
    pub(crate) closed spec fn carries(&self, hook: Option<&Box<dyn ConfigureHook>>) -> bool {
        self.hook == hook
    }

    /// Whether `name` is the text of what the bridge's handler returns as its name.
    pub closed spec fn handler_names(&self, name: Seq<char>) -> bool {
        exists|given: &str| says_name(self.handler, given) && given@ == name
    }

    /// Whether `description` is the text of what the bridge's handler returns as its
    /// description.
    pub closed spec fn handler_describes(&self, description: Seq<char>) -> bool {
        exists|given: &str| says_description(self.handler, given) && given@ == description
    }

    /// Whether `approval` is what the bridge's handler returns when asked whether it requires
    /// approval.
    pub closed spec fn handler_asks_approval(&self, approval: bool) -> bool {
        says_approval(self.handler, approval)
    }

    /// Whether `schema` is what the bridge's handler returns from `schema`.
    pub closed spec fn handler_schema(&self, schema: serde_json::Value) -> bool {
        says_schema(self.handler, schema)
    }

    /// Whether `outcome` is what the bridge's handler returns from `execute` for these arguments.
    pub closed spec fn handler_execute(
        &self,
        input: serde_json::Value,
        outcome: Result<String, NeboError>,
    ) -> bool {
        says_execute(self.handler, input, outcome)
    }

    /// A bridge for the handler, in the given environment, without a callback for
    /// configuration updates.
    pub fn new(handler: &'a dyn ToolHandler, env: &'a AppEnv) -> (bridge: Self)
        ensures
            bridge.env() == env@,
            !bridge.configurable(),
    {
        ToolBridge { handler, env, hook: None }
    }

    pub(crate) fn with_hook(
        handler: &'a dyn ToolHandler,
        env: &'a AppEnv,
        hook: Option<&'a Box<dyn ConfigureHook>>,
    ) -> (bridge: Self)
        ensures
            bridge.env() == env@,
            bridge.carries(hook),
            bridge.configurable() == hook is Some,
    {
        ToolBridge { handler, env, hook }
    }

    /// Answers a health check: alive, under the environment's name and version, whatever state
    /// the handler is in.
    pub fn health_check(&self) -> (r: HealthCheckResponse)
        ensures
            r@ == healthy(self.env()),
    {
        health_report(self.env)
    }

    /// Asks the handler for its name and returns a copy of the text it gives.
    pub fn name(&self) -> (name: String)
        ensures
            self.handler_names(name@),
    {
        let given = self.handler.name();
        let name = given.to_owned();
        assert(says_name(self.handler, given) && given@ == name@);
        name
    }

    /// Asks the handler for its description and returns a copy of the text it gives.
    pub fn description(&self) -> (description: String)
        ensures
            self.handler_describes(description@),
    {
        let given = self.handler.description();
        let description = given.to_owned();
        assert(says_description(self.handler, given) && given@ == description@);
        description
    }

    /// Asks the handler for its schema and writes it out as JSON. A schema that cannot be
    /// written yields no bytes.
    pub fn schema(&self) -> (bytes: Vec<u8>)
        ensures
            exists|schema: serde_json::Value|
                self.handler_schema(schema) && bytes@ == written_or_empty(document(schema)),
    {
        let schema = self.handler.schema();
        let bytes = encode(&schema);
        assert(self.handler_schema(schema) && bytes@ == written_or_empty(document(schema)));
        bytes
    }

    /// Decodes the input, runs the handler on it once, and encodes what the handler made of
    /// it. Input that is not JSON reaches the handler as the object without members. A failure
    /// is reported in the answer.
    pub fn execute(&self, input: &[u8]) -> (r: ExecuteResponse)
        ensures
            exists|given: serde_json::Value, outcome: Result<String, NeboError>|
                document(given) == parsed_or_empty(input@) && self.handler_execute(given, outcome)
                    && r@ == execute_reply_of(outcome),
    {
        let given = decode_input(input);
        let ghost asked = given;
        let outcome = self.handler.execute(given);
        let r = execute_response(outcome);
        assert(document(asked) == parsed_or_empty(input@) && self.handler_execute(asked, outcome)
            && r@ == execute_reply_of(outcome));
        r
    }

    /// Asks the handler whether it requires approval and returns its answer.
    pub fn requires_approval(&self) -> (approval: bool)
        ensures
            self.handler_asks_approval(approval),
    {
        self.handler.requires_approval()
    }

    /// Hands a configuration update to the bridge's callback, once. A bridge without a
    /// callback drops the update. The call cannot fail.
    pub fn configure(&self, values: HashMap<String, String>)
        ensures
            self.hands_over(values),
    {
        push_settings(self.hook, values)
    }
}

} // verus!
