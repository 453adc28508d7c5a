use std::hash::{DefaultHasher, Hash, Hasher};

use groq_client::client::{finish_non_stream_completion, select_transport, CompletionOption, Groq, TransportKind};
use groq_client::error::{CompletionError, PreconditionViolation};
use groq_client::message::Message;
use groq_client::request::Request;
use groq_client::response::{ErrorResponse, Response};

fn user_message(text: &str) -> Message {
    Message::UserMessage {
        role: Some("user".to_string()),
        content: Some(text.to_string()),
        name: None,
        tool_call_id: None,
    }
}

#[test]
fn test_eq_and_hash() {
    let g1 = Groq::new("api_key").add_messages(vec![Message::UserMessage {
        role: Some("user".to_string()),
        content: Some("Explain the importance of fast language models".to_string()),
        name: None,
        tool_call_id: None,
    }]);

    let g2 = Groq::new("api_key").add_messages(vec![Message::UserMessage {
        role: Some("user".to_string()),
        content: Some("Explain the importance of fast language models".to_string()),
        name: None,
        tool_call_id: None,
    }]);

    let mut hasher = DefaultHasher::new();
    let mut hasher1 = DefaultHasher::new();

    g1.hash(&mut hasher);
    g2.hash(&mut hasher1);
    let hash_string = hasher.finish();
    let hash_string1 = hasher1.finish();

    assert_eq!(hash_string, hash_string1);
}

#[test]
fn merge_order_puts_pending_before_history() {
    let h1 = user_message("first history entry");
    let h2 = user_message("second history entry");
    let p1 = Message::SystemMessage {
        role: Some("system".to_string()),
        content: Some("one-shot instruction".to_string()),
        name: None,
        tool_call_id: None,
    };
    let groq = Groq::new("k")
        .add_message(h1.clone())
        .add_message(h2.clone())
        .add_tmp_message(p1.clone());

    let assembled = groq.get_all_request_messages();
    assert_eq!(assembled, vec![p1, h1, h2]);
}

#[test]
fn merge_with_empty_pending_is_history_exactly() {
    let h1 = user_message("only history");
    let groq = Groq::new("k").add_message(h1.clone());

    let assembled = groq.get_all_request_messages();
    assert_eq!(assembled, vec![h1]);
}

#[test]
fn assembler_drains_pending_on_read() {
    let mut groq = Groq::new("k")
        .add_message(user_message("kept"))
        .add_tmp_message(user_message("consumed"));
    assert!(groq.get_tmp_request_messages().is_some());

    let assembled = groq.get_request_messages_with_tmp_clear();
    assert_eq!(assembled.len(), 2);
    assert!(groq.get_tmp_request_messages().is_none());
}

#[test]
fn history_survives_request_preparation() {
    let h1 = user_message("durable");
    let mut groq = Groq::new("k").add_message(h1.clone()).add_tmp_message(user_message("ephemeral"));

    let template = Request::new("some-model".to_string());
    let prepared = groq.prepare_request(template);
    assert!(prepared.is_ok());

    assert!(groq.get_tmp_request_messages().is_none());
    assert_eq!(groq.get_all_request_messages(), vec![h1]);
}

#[test]
fn prepare_request_injects_assembled_messages() {
    let h1 = user_message("history");
    let p1 = user_message("pending");
    let mut groq = Groq::new("k").add_message(h1.clone()).add_tmp_message(p1.clone());

    let template = Request::new("some-model".to_string());
    let prepared = groq.prepare_request(template).unwrap();
    assert_eq!(prepared.messages, vec![p1, h1]);
    assert_eq!(prepared.model, "some-model".to_string());
    assert!(!prepared.stream);
}

#[test]
fn prepare_request_without_any_message_is_refused() {
    let mut groq = Groq::new("k");
    let template = Request::new("some-model".to_string());
    let prepared = groq.prepare_request(template);
    assert_eq!(
        prepared.unwrap_err(),
        CompletionError::Precondition(PreconditionViolation::EmptyMessages)
    );
}

#[test]
fn clear_messages_empties_history() {
    let groq = Groq::new("k").add_message(user_message("gone")).clear_messages();
    assert_eq!(groq.get_all_request_messages(), Vec::<Message>::new());
}

#[test]
fn transport_selection_follows_stream_flag() {
    let non_stream = Request::new("m".to_string());
    assert_eq!(select_transport(&non_stream), TransportKind::NonStreaming);
    let stream = Request::new("m".to_string()).with_stream(true);
    assert_eq!(select_transport(&stream), TransportKind::Streaming);
    assert!(stream.is_stream());
}

#[test]
fn status_200_with_valid_body_is_success() {
    let body = "{\"id\":\"cmpl-1\",\"choices\":[]}".to_string();
    let outcome = finish_non_stream_completion(200, body.clone());
    assert_eq!(outcome.unwrap(), CompletionOption::NonStream(Response { body }));
}

#[test]
fn observed_status_overrides_embedded_code() {
    let body = "{\"error\":{\"message\":\"slow down\",\"type\":\"rate_limit\"},\"code\":500}"
        .to_string();
    let outcome = finish_non_stream_completion(429, body.clone());
    assert_eq!(
        outcome.unwrap_err(),
        CompletionError::Application(ErrorResponse { code: 429, body })
    );
}

#[test]
fn malformed_success_body_is_a_decode_error() {
    let body = "not json at all".to_string();
    let outcome = finish_non_stream_completion(200, body.clone());
    assert_eq!(outcome.unwrap_err(), CompletionError::Decode(body));
}

#[test]
fn malformed_error_body_is_a_decode_error() {
    let body = "<html>busy</html>".to_string();
    let outcome = finish_non_stream_completion(503, body.clone());
    assert_eq!(outcome.unwrap_err(), CompletionError::Decode(body));
}

#[test]
fn scenario_non_streaming_success_leaves_store_intact() {
    let h1 = user_message("hi");
    let mut groq = Groq::new("k").add_message(h1.clone());
    assert!(groq.get_tmp_request_messages().is_none());

    let template = Request::new("some-model".to_string());
    let prepared = groq.prepare_request(template).unwrap();
    assert!(!prepared.is_stream());

    let body = "{\"id\":\"cmpl-2\",\"model\":\"some-model\"}".to_string();
    let outcome = finish_non_stream_completion(200, body.clone()).unwrap();
    assert_eq!(outcome, CompletionOption::NonStream(Response { body }));

    assert_eq!(groq.get_all_request_messages(), vec![h1]);
    assert!(groq.get_tmp_request_messages().is_none());
}
