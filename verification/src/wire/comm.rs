//! Wire messages of the comm service.

use vstd::prelude::*;
use std::collections::HashMap;
use crate::comm::CommMessageView;
use crate::model::option_view;
use crate::model::views;

verus! {

/// A message between agents.
#[derive(Debug, Clone, PartialEq)]
pub struct CommMessage {
    pub id: String,
    pub from: String,
    pub to: String,
    pub topic: String,
    pub conversation_id: String,
    pub kind: String,
    pub content: String,
    pub metadata: HashMap<String, String>,
    pub timestamp: i64,
    pub human_injected: bool,
    pub human_id: String,
}

impl View for CommMessage {
    type V = CommMessageView;

    open spec fn view(&self) -> CommMessageView {
        CommMessageView {
            id: self.id@,
            from: self.from@,
            to: self.to@,
            topic: self.topic@,
            conversation_id: self.conversation_id@,
            kind: self.kind@,
            content: self.content@,
            metadata: self.metadata@,
            timestamp: self.timestamp,
            human_injected: self.human_injected,
            human_id: self.human_id@,
        }
    }
}

/// The request to send a message.
#[derive(Debug, Clone, PartialEq)]
pub struct CommSendRequest {
    pub message: Option<CommMessage>,
}

/// The content of a `CommSendRequest`.
pub struct CommSendRequestView {
    pub message: Option<CommMessageView>,
}

impl View for CommSendRequest {
    type V = CommSendRequestView;

    open spec fn view(&self) -> CommSendRequestView {
        CommSendRequestView {
            message: option_view(self.message),
        }
    }
}

/// The request to register an agent with what it can do.
#[derive(Debug, Clone, PartialEq)]
pub struct CommRegisterRequest {
    pub agent_id: String,
    pub capabilities: Vec<String>,
}

/// The content of a `CommRegisterRequest`.
pub struct CommRegisterRequestView {
    pub agent_id: Seq<char>,
    pub capabilities: Seq<Seq<char>>,
}

impl View for CommRegisterRequest {
    type V = CommRegisterRequestView;

    open spec fn view(&self) -> CommRegisterRequestView {
        CommRegisterRequestView {
            agent_id: self.agent_id@,
            capabilities: views(self.capabilities@),
        }
    }
}
} // verus!
