use groq_client::error::{CompletionError, PreconditionViolation};
use groq_client::message::Message;
use groq_client::request::Request;

#[test]
fn template_starts_with_documented_defaults() {
    let r = Request::new("some-model".to_string());
    assert_eq!(r.model, "some-model".to_string());
    assert!(r.messages.is_empty());
    assert_eq!(r.n, 1);
    assert!(!r.logprobs);
    assert!(!r.stream);
    assert_eq!(r.response_format.response_type, "text".to_string());
    assert!(r.logit_bias.is_none());
    assert!(r.max_tokens.is_none());
    assert!(r.seed.is_none());
    assert!(r.stop.is_none());
    assert!(r.tool_choice.is_none());
    assert!(r.tools.is_none());
    assert!(r.top_logprobs.is_none());
    assert!(r.user.is_none());
}

#[test]
fn with_stream_only_touches_the_flag() {
    let r = Request::new("some-model".to_string()).with_stream(true);
    assert!(r.is_stream());
    assert_eq!(r.model, "some-model".to_string());
    assert_eq!(r.n, 1);
}

#[test]
fn with_messages_refuses_an_empty_list() {
    let r = Request::new("some-model".to_string()).with_messages(Vec::new());
    assert_eq!(
        r.unwrap_err(),
        CompletionError::Precondition(PreconditionViolation::EmptyMessages)
    );
}

#[test]
fn with_messages_replaces_the_message_list() {
    let msg = Message::ToolMessage {
        role: Some("tool".to_string()),
        content: Some("result".to_string()),
        name: None,
        tool_call_id: Some("call-7".to_string()),
    };
    let r = Request::new("some-model".to_string()).with_messages(vec![msg.clone()]).unwrap();
    assert_eq!(r.messages, vec![msg]);
    assert_eq!(r.model, "some-model".to_string());
    assert!(!r.stream);
}
