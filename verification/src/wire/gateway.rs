//! Wire messages of the gateway service.

use vstd::prelude::*;
use crate::gateway::GatewayEventView;
use crate::gateway::GatewayMessageView;
use crate::gateway::GatewayToolDefView;
use crate::model::option_view;
use crate::model::views;

verus! {

/// Who the request is made for.
#[derive(Debug, Clone, PartialEq)]
pub struct UserContext {
    pub token: String,
    pub user_id: String,
    pub plan: String,
}

/// The content of a `UserContext`.
pub struct UserContextView {
    pub token: Seq<char>,
    pub user_id: Seq<char>,
    pub plan: Seq<char>,
}

impl View for UserContext {
    type V = UserContextView;

    open spec fn view(&self) -> UserContextView {
        UserContextView {
            token: self.token@,
            user_id: self.user_id@,
            plan: self.plan@,
        }
    }
}

/// One message of a conversation.
#[derive(Debug, Clone, PartialEq)]
pub struct GatewayMessage {
    pub role: String,
    pub content: String,
    pub tool_call_id: String,
    pub tool_calls: String,
}

impl View for GatewayMessage {
    type V = GatewayMessageView;

    open spec fn view(&self) -> GatewayMessageView {
        GatewayMessageView {
            role: self.role@,
            content: self.content@,
            tool_call_id: self.tool_call_id@,
            tool_calls: self.tool_calls@,
        }
    }
}

/// A tool that the model may call.
#[derive(Debug, Clone, PartialEq)]
pub struct GatewayToolDef {
    pub name: String,
    pub description: String,
    pub input_schema: Vec<u8>,
}

impl View for GatewayToolDef {
    type V = GatewayToolDefView;

    open spec fn view(&self) -> GatewayToolDefView {
        GatewayToolDefView {
            name: self.name@,
            description: self.description@,
            input_schema: self.input_schema@,
        }
    }
}

/// The request for a streamed chat completion.
#[derive(Debug, Clone, PartialEq)]
pub struct GatewayRequest {
    pub request_id: String,
    pub messages: Vec<GatewayMessage>,
    pub tools: Vec<GatewayToolDef>,
    pub max_tokens: i32,
    /// The sampling temperature, as the bits of a 64-bit floating-point number.
    pub temperature_bits: u64,
    pub system: String,
    pub user: Option<UserContext>,
}

/// The content of a `GatewayRequest`.
pub struct GatewayCallView {
    pub request_id: Seq<char>,
    pub messages: Seq<GatewayMessageView>,
    pub tools: Seq<GatewayToolDefView>,
    pub max_tokens: i32,
    pub temperature_bits: u64,
    pub system: Seq<char>,
    pub user: Option<UserContextView>,
}

impl View for GatewayRequest {
    type V = GatewayCallView;

    open spec fn view(&self) -> GatewayCallView {
        GatewayCallView {
            request_id: self.request_id@,
            messages: views(self.messages@),
            tools: views(self.tools@),
            max_tokens: self.max_tokens,
            temperature_bits: self.temperature_bits,
            system: self.system@,
            user: option_view(self.user),
        }
    }
}

/// One event of a streamed completion.
#[derive(Debug, Clone, PartialEq)]
pub struct GatewayEvent {
    pub kind: String,
    pub content: String,
    pub model: String,
    pub request_id: String,
}

impl View for GatewayEvent {
    type V = GatewayEventView;

    open spec fn view(&self) -> GatewayEventView {
        GatewayEventView {
            kind: self.kind@,
            content: self.content@,
            model: self.model@,
            request_id: self.request_id@,
        }
    }
}

/// The answer to a poll for events.
#[derive(Debug, Clone, PartialEq)]
pub struct PollResponse {
    pub events: Vec<GatewayEvent>,
    pub complete: bool,
}

/// The content of a `PollResponse`.
pub struct PollResponseView {
    pub events: Seq<GatewayEventView>,
    pub complete: bool,
}

impl View for PollResponse {
    type V = PollResponseView;

    open spec fn view(&self) -> PollResponseView {
        PollResponseView {
            events: views(self.events@),
            complete: self.complete,
        }
    }
}

/// The answer to a request to cancel.
#[derive(Debug, Clone, PartialEq)]
pub struct CancelResponse {
    pub cancelled: bool,
}

/// The content of a `CancelResponse`.
pub struct CancelResponseView {
    pub cancelled: bool,
}

impl View for CancelResponse {
    type V = CancelResponseView;

    open spec fn view(&self) -> CancelResponseView {
        CancelResponseView {
            cancelled: self.cancelled,
        }
    }
}
} // verus!
