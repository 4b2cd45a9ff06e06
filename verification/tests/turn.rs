use lingchong_bot::gateway::AgentGatewayMessageResponse;
use lingchong_bot::turn::{BotTurnService, ChannelAttachment, ChannelMessage};

fn sample_channel_message() -> ChannelMessage {
    ChannelMessage {
        id: "message-1".to_string(),
        sender: "alice".to_string(),
        recipient: "chat-1".to_string(),
        session_key: "chat-1:alice".to_string(),
        content: "hello".to_string(),
        attachments: vec![ChannelAttachment::ImageUrl {
            url: "https://example.test/image.png".to_string(),
        }],
        channel: "telegram".to_string(),
        timestamp: 1_774_203_200,
    }
}

#[test]
fn channel_message_builds_gateway_session_id() {
    let message = sample_channel_message();

    assert_eq!(message.gateway_session_id(), "telegram:chat-1:alice");
}

#[test]
fn turn_service_builds_gateway_request_without_domain_tools() {
    let message = sample_channel_message();
    let request = BotTurnService::build_gateway_request(&message);

    assert_eq!(request.session_id, "telegram:chat-1:alice");
    assert_eq!(request.message, "hello");
}

#[test]
fn turn_reply_goes_to_recipient_with_gateway_text() {
    let message = sample_channel_message();
    let reply = BotTurnService::reply_for(
        &message,
        AgentGatewayMessageResponse {
            response: "hi there".to_string(),
        },
    );

    assert_eq!(reply.recipient, "chat-1");
    assert_eq!(reply.content, "hi there");
}
