//! What every bridge does in the same way: health, plain success-or-failure answers, and the
//! delivery of configuration updates.

use vstd::prelude::*;
use std::collections::HashMap;
use crate::env::AppEnv;
use crate::env::AppEnvView;
use crate::error::NeboError;
use crate::wire::common::ErrorReply;
use crate::wire::common::ErrorReplyView;
use crate::wire::common::HealthCheckResponse;
use crate::wire::common::HealthCheckResponseView;

verus! {

/// The health of a process in the given environment: alive, under the environment's name and
/// version.
pub open spec fn healthy(env: AppEnvView) -> HealthCheckResponseView {
    HealthCheckResponseView { healthy: true, name: env.name, version: env.version }
}

/// Answers a health check from the environment alone; no handler is asked.
pub fn health_report(env: &AppEnv) -> (r: HealthCheckResponse)
    ensures
        r@ == healthy(env@),
{
    HealthCheckResponse { healthy: true, name: env.name.clone(), version: env.version.clone() }
}

/// The answer that carries the outcome of an operation without a value: no error text on
/// success, what the failure reports on failure.
pub open spec fn error_reply_of(outcome: Result<(), NeboError>) -> ErrorReplyView {
    match outcome {
        Ok(_) => ErrorReplyView { error: Seq::empty() },
        Err(failure) => ErrorReplyView { error: failure.report() },
    }
}

/// Encodes the outcome of an operation without a value.
pub fn error_reply(outcome: Result<(), NeboError>) -> (r: ErrorReply)
    ensures
        r@ == error_reply_of(outcome),
{
    match outcome {
        Ok(_) => ErrorReply { error: String::new() },
        Err(failure) => ErrorReply { error: failure.report_text() },
    }
}

/// Something that takes configuration updates.
pub(crate) trait ConfigureHook: Send + Sync + 'static {
    /// Takes one update: a setting's value under each setting's name.
    fn deliver(&self, values: HashMap<String, String>);
}

/// A callback that takes every update.
pub(crate) struct FnHook<F: Fn(HashMap<String, String>) + Send + Sync + 'static> {
    callback: F,
}

impl<F: Fn(HashMap<String, String>) + Send + Sync + 'static> FnHook<F> {
    #[verifier::type_invariant]
    spec fn takes_every_update(self) -> bool {
        forall|values: HashMap<String, String>| call_requires(self.callback, (values,))
    }

    /// The callback that the hook hands every update to.
    pub(crate) closed spec fn callback(self) -> F {
        self.callback
    }

    /// The hook that hands every update to the given callback.
    pub(crate) fn new(callback: F) -> (hook: Self)
        requires
            forall|values: HashMap<String, String>| call_requires(callback, (values,)),
        ensures
            hook.callback() == callback,
    {
        FnHook { callback }
    }
}

impl<F: Fn(HashMap<String, String>) + Send + Sync + 'static> ConfigureHook for FnHook<F> {
    fn deliver(&self, values: HashMap<String, String>) {
        proof {
            use_type_invariant(self);
        }
        (self.callback)(values);
    }
}

/// Whether the hook was handed `values` and took them.
pub(crate) open spec fn says_deliver<H: ConfigureHook + ?Sized>(
    hook: &H,
    values: HashMap<String, String>,
) -> bool {
    call_ensures(H::deliver, (hook, values), ())
}

/// Whether an update with these values was handed to the callback, where there is one.
pub(crate) closed spec fn delivered(
    hook: Option<&Box<dyn ConfigureHook>>,
    values: HashMap<String, String>,
) -> bool {
    match hook {
        Some(callback) => says_deliver(&**callback, values),
        None => true,
    }
}

/// Hands a configuration update to the callback, if there is one. Without a callback the
/// update is dropped.
pub(crate) fn push_settings(
    hook: Option<&Box<dyn ConfigureHook>>,
    values: HashMap<String, String>,
)
    ensures
        delivered(hook, values),
{
    match hook {
        Some(callback) => {
            callback.deliver(values);
        },
        None => {},
    }
}

} // verus!
