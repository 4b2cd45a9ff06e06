//! Channel turn orchestration.
//!
//! This module maps channel messages into external gateway requests and
//! gateway responses into channel replies.

use vstd::prelude::*;
use crate::gateway::{AgentGatewayClient, AgentGatewayMessageRequest, AgentGatewayMessageResponse};
use crate::text::concat3;

verus! {

/// Structured attachment attached to a channel message.
#[derive(Debug, Clone, PartialEq, Eq)]
pub enum ChannelAttachment {
    /// Attachment represented as a remotely fetchable image URL.
    ImageUrl {
        /// Remote image location.
        url: String,
    },
}

/// A message received from Telegram, Discord, or another chat adapter.
#[derive(Debug, Clone, PartialEq, Eq)]
pub struct ChannelMessage {
    /// Unique message identifier from the source channel.
    pub id: String,
    /// Sender identity for diagnostics and policy.
    pub sender: String,
    /// Reply target for outbound channel send operations.
    pub recipient: String,
    /// Session partition key selected by the channel adapter.
    pub session_key: String,
    /// Message text content.
    pub content: String,
    /// Structured inbound attachments.
    pub attachments: Vec<ChannelAttachment>,
    /// Channel name such as `telegram` or `discord`.
    pub channel: String,
    /// Unix timestamp.
    pub timestamp: u64,
}

/// The gateway session identifier of a message: `channel:session_key`.
pub open spec fn gateway_session_id_of(channel: Seq<char>, session_key: Seq<char>) -> Seq<char> {
    channel + ":"@ + session_key
}

impl ChannelMessage {
    /// Build the external agent session identifier for this message.
    pub fn gateway_session_id(&self) -> (id: String)
        ensures
            id@ == gateway_session_id_of(self.channel@, self.session_key@),
    {
        concat3(self.channel.as_str(), ":", self.session_key.as_str())
    }
}

/// Successful bot turn response ready for channel delivery.
#[derive(Debug, Clone, PartialEq, Eq)]
pub struct BotTurnReply {
    /// Reply target copied from the inbound channel message.
    pub recipient: String,
    /// Text to send to the channel.
    pub content: String,
}

/// Gateway-backed bot turn service.
#[derive(Debug, Clone)]
pub struct BotTurnService {
    gateway: AgentGatewayClient,
}

impl BotTurnService {
    /// Build a turn service from an external agent gateway client.
    pub fn new(gateway: AgentGatewayClient) -> (s: Self)
        ensures
            s.gateway_view() == gateway,
    {
        Self { gateway }
    }

    /// The gateway client the service sends through.
    pub closed spec fn gateway_view(&self) -> AgentGatewayClient {
        self.gateway
    }

    /// The gateway client the service sends through.
    pub fn gateway(&self) -> (g: &AgentGatewayClient)
        ensures
            *g == self.gateway_view(),
    {
        &self.gateway
    }

    /// Build the gateway request for an inbound channel message: its gateway
    /// session identifier and its content.
    pub fn build_gateway_request(message: &ChannelMessage) -> (r: AgentGatewayMessageRequest)
        ensures
            r.session_id@ == gateway_session_id_of(message.channel@, message.session_key@),
            r.message@ == message.content@,
    {
        let session_id = message.gateway_session_id();
        AgentGatewayMessageRequest::new(session_id.as_str(), message.content.as_str())
    }

    /// The reply for a message once the gateway answered: addressed to the
    /// message's recipient, carrying the gateway's response text.
    pub fn reply_for(message: &ChannelMessage, response: AgentGatewayMessageResponse) -> (r:
        BotTurnReply)
        ensures
            r.recipient@ == message.recipient@,
            r.content@ == response.response@,
    {
        BotTurnReply { recipient: message.recipient.clone(), content: response.response }
    }
}

} // verus!
