//! The policy on failures, which every bridge follows: a handler's failure travels inside the
//! answer, never as a fault of the transport, unless the answer has no place for it.

use vstd::prelude::*;
use crate::bridge::error_reply_of;
use crate::channel::send_reply_of;
use crate::error::NeboError;
use crate::error::TransportFault;
use crate::gateway::cancel_reply_of;
use crate::relay::opens_as;
use crate::relay::StreamSetup;
use crate::schedule::delete_reply_of;
use crate::schedule::history_reply_of;
use crate::schedule::list_reply_of;
use crate::schedule::schedule_reply_of;
use crate::schedule::trigger_reply_of;
use crate::tool::execute_reply_of;
use crate::ui::event_reply_of;
use crate::ui::blank_view;
use crate::ui::view_reply_of;
use crate::wire;

verus! {

/// A handler's failure travels in the answer: wherever an answer has an error field, that
/// field holds what the failure reports, which is never empty, and the fields for the result
/// are at their defaults. So no failure is answered like a success.
pub proof fn lemma_failure_travels_in_the_answer(failure: NeboError)
    ensures
        failure.report().len() > 0,
        failure.text().len() > 0 ==> failure.report() == failure.text(),
        execute_reply_of(Err(failure)).is_error,
        execute_reply_of(Err(failure)).content == failure.report(),
        error_reply_of(Err(failure)).error == failure.report(),
        send_reply_of(Err(failure)).error == failure.report(),
        send_reply_of(Err(failure)).message_id.len() == 0,
        event_reply_of(Err(failure)).error == failure.report(),
        event_reply_of(Err(failure)).view is None,
        event_reply_of(Err(failure)).toast.len() == 0,
        schedule_reply_of(Err(failure)).error == failure.report(),
        schedule_reply_of(Err(failure)).schedule is None,
        delete_reply_of(Err(failure)).error == failure.report(),
        !delete_reply_of(Err(failure)).success,
        trigger_reply_of(Err(failure)).error == failure.report(),
        !trigger_reply_of(Err(failure)).success,
        trigger_reply_of(Err(failure)).output.len() == 0,
{
    failure.lemma_report_is_not_empty();
}

/// Where an answer has no error field, a handler's failure still travels in the answer, as
/// the defaults of the fields for the result.
pub proof fn lemma_failure_without_error_field(failure: NeboError)
    ensures
        !cancel_reply_of(Err(failure)).cancelled,
        list_reply_of(Err(failure)).schedules.len() == 0,
        list_reply_of(Err(failure)).total == 0,
        history_reply_of(Err(failure)).entries.len() == 0,
        history_reply_of(Err(failure)).total == 0,
        view_reply_of(Err(failure)) == blank_view(),
        view_reply_of(Err(failure)).view_id.len() == 0,
        view_reply_of(Err(failure)).title.len() == 0,
        view_reply_of(Err(failure)).blocks.len() == 0,
{
}

/// A success leaves the error field of its answer empty.
pub proof fn lemma_success_reports_no_error(
    text: String,
    schedule: wire::schedule::Schedule,
    fired: (bool, String),
)
    ensures
        !execute_reply_of(Ok(text)).is_error,
        error_reply_of(Ok(())).error.len() == 0,
        send_reply_of(Ok(text)).error.len() == 0,
        schedule_reply_of(Ok(schedule)).error.len() == 0,
        delete_reply_of(Ok(())).error.len() == 0,
        delete_reply_of(Ok(())).success,
        trigger_reply_of(Ok(fired)).error.len() == 0,
        cancel_reply_of(Ok(())).cancelled,
{
}

/// An answer with an error field tells a failure from a success: the two never give the same
/// answer.
pub proof fn lemma_failure_is_told_from_success(
    failure: NeboError,
    text: String,
    schedule: wire::schedule::Schedule,
    fired: (bool, String),
)
    ensures
        execute_reply_of(Err(failure)) != execute_reply_of(Ok(text)),
        error_reply_of(Err(failure)) != error_reply_of(Ok(())),
        send_reply_of(Err(failure)) != send_reply_of(Ok(text)),
        schedule_reply_of(Err(failure)) != schedule_reply_of(Ok(schedule)),
        delete_reply_of(Err(failure)) != delete_reply_of(Ok(())),
        trigger_reply_of(Err(failure)).error != trigger_reply_of(Ok(fired)).error,
{
    failure.lemma_report_is_not_empty();
}

/// Only a stream that the handler refuses to open becomes a fault of the transport: no answer
/// exists yet that could carry the failure. The fault then carries the failure's text.
pub proof fn lemma_refused_stream_is_a_fault<S>(
    failure: NeboError,
    capacity: usize,
    stream: Result<StreamSetup<S>, TransportFault>,
)
    requires
        opens_as(Err(failure), capacity, stream),
    ensures
        stream matches Err(fault) && fault is Internal && fault.text() == failure.text(),
{
}

} // verus!
