//! Wire messages of the channel service.

use vstd::prelude::*;
use crate::channel::AttachmentView;
use crate::channel::MessageActionView;
use crate::channel::MessageSenderView;
use crate::model::option_view;
use crate::model::views;

verus! {

/// Who sent a message.
#[derive(Debug, Clone, PartialEq)]
pub struct MessageSender {
    pub name: String,
    pub role: String,
    pub bot_id: String,
}

impl View for MessageSender {
    type V = MessageSenderView;

    open spec fn view(&self) -> MessageSenderView {
        MessageSenderView {
            name: self.name@,
            role: self.role@,
            bot_id: self.bot_id@,
        }
    }
}

/// A file or a piece of media that comes with a message.
#[derive(Debug, Clone, PartialEq)]
pub struct Attachment {
    pub kind: String,
    pub url: String,
    pub filename: String,
    pub size: i64,
}

impl View for Attachment {
    type V = AttachmentView;

    open spec fn view(&self) -> AttachmentView {
        AttachmentView {
            kind: self.kind@,
            url: self.url@,
            filename: self.filename@,
            size: self.size,
        }
    }
}

/// Something a reader can press.
#[derive(Debug, Clone, PartialEq)]
pub struct MessageAction {
    pub label: String,
    pub callback_id: String,
}

impl View for MessageAction {
    type V = MessageActionView;

    open spec fn view(&self) -> MessageActionView {
        MessageActionView {
            label: self.label@,
            callback_id: self.callback_id@,
        }
    }
}

/// The request to send a message out on the channel.
#[derive(Debug, Clone, PartialEq)]
pub struct ChannelSendRequest {
    pub channel_id: String,
    pub text: String,
    pub message_id: String,
    pub sender: Option<MessageSender>,
    pub attachments: Vec<Attachment>,
    pub reply_to: String,
    pub actions: Vec<MessageAction>,
    pub platform_data: Vec<u8>,
}

/// The content of a `ChannelSendRequest`.
pub struct ChannelSendRequestView {
    pub channel_id: Seq<char>,
    pub text: Seq<char>,
    pub message_id: Seq<char>,
    pub sender: Option<MessageSenderView>,
    pub attachments: Seq<AttachmentView>,
    pub reply_to: Seq<char>,
    pub actions: Seq<MessageActionView>,
    pub platform_data: Seq<u8>,
}

impl View for ChannelSendRequest {
    type V = ChannelSendRequestView;

    open spec fn view(&self) -> ChannelSendRequestView {
        ChannelSendRequestView {
            channel_id: self.channel_id@,
            text: self.text@,
            message_id: self.message_id@,
            sender: option_view(self.sender),
            attachments: views(self.attachments@),
            reply_to: self.reply_to@,
            actions: views(self.actions@),
            platform_data: self.platform_data@,
        }
    }
}

/// The answer to a request to send.
#[derive(Debug, Clone, PartialEq)]
pub struct ChannelSendResponse {
    /// The identifier that the platform gave the message; empty on failure.
    pub message_id: String,
    /// Why the message was not sent; empty on success.
    pub error: String,
}

/// The content of a `ChannelSendResponse`.
pub struct ChannelSendResponseView {
    pub message_id: Seq<char>,
    pub error: Seq<char>,
}

impl View for ChannelSendResponse {
    type V = ChannelSendResponseView;

    open spec fn view(&self) -> ChannelSendResponseView {
        ChannelSendResponseView {
            message_id: self.message_id@,
            error: self.error@,
        }
    }
}

/// A message that came in on the channel.
#[derive(Debug, Clone, PartialEq)]
pub struct InboundMessage {
    pub channel_id: String,
    pub user_id: String,
    pub text: String,
    pub metadata: String,
    pub message_id: String,
    pub sender: Option<MessageSender>,
    pub attachments: Vec<Attachment>,
    pub reply_to: String,
    pub actions: Vec<MessageAction>,
    pub platform_data: Vec<u8>,
    pub timestamp: String,
}

/// The content of a `InboundMessage`.
pub struct InboundMessageView {
    pub channel_id: Seq<char>,
    pub user_id: Seq<char>,
    pub text: Seq<char>,
    pub metadata: Seq<char>,
    pub message_id: Seq<char>,
    pub sender: Option<MessageSenderView>,
    pub attachments: Seq<AttachmentView>,
    pub reply_to: Seq<char>,
    pub actions: Seq<MessageActionView>,
    pub platform_data: Seq<u8>,
    pub timestamp: Seq<char>,
}

impl View for InboundMessage {
    type V = InboundMessageView;

    open spec fn view(&self) -> InboundMessageView {
        InboundMessageView {
            channel_id: self.channel_id@,
            user_id: self.user_id@,
            text: self.text@,
            metadata: self.metadata@,
            message_id: self.message_id@,
            sender: option_view(self.sender),
            attachments: views(self.attachments@),
            reply_to: self.reply_to@,
            actions: views(self.actions@),
            platform_data: self.platform_data@,
            timestamp: self.timestamp@,
        }
    }
}
} // verus!
