use dify_client::{
    chat_payload, completion_payload, workflow_payload, ChatClient, ClientError, CompletionClient,
    JsonValue, MalformedReason, RequestBody, ResponseMode, WorkflowClient,
};

fn s(x: &str) -> JsonValue {
    JsonValue::Str(x.to_string())
}

fn obj(es: Vec<(&str, JsonValue)>) -> JsonValue {
    JsonValue::Object(es.into_iter().map(|(k, v)| (k.to_string(), v)).collect())
}

#[test]
fn response_mode_wire_strings() {
    assert_eq!(ResponseMode::Block.as_str(), "blocking");
    assert_eq!(ResponseMode::Stream.as_str(), "streaming");
    assert_eq!(ResponseMode::Block.to_string(), "blocking");
    assert!(ResponseMode::Stream.is_streaming());
    assert!(!ResponseMode::Block.is_streaming());
}

#[test]
fn response_mode_round_trip() {
    for m in [ResponseMode::Block, ResponseMode::Stream] {
        assert_eq!(ResponseMode::from_wire(m.as_str()), Some(m));
    }
    assert_eq!(ResponseMode::from_wire("\"blocking\""), None);
    assert_eq!(ResponseMode::from_wire("Blocking"), None);
    assert_eq!(ResponseMode::from_wire(""), None);
}

#[test]
fn chat_body_without_conversation_id() {
    let b = chat_payload(obj(vec![]), "hi", "u1", ResponseMode::Block, None, None).unwrap();
    assert_eq!(
        b,
        obj(vec![
            ("inputs", obj(vec![])),
            ("query", s("hi")),
            ("user", s("u1")),
            ("response_mode", s("blocking")),
        ])
    );
}

#[test]
fn chat_body_with_conversation_id() {
    let b = chat_payload(obj(vec![]), "hi", "u1", ResponseMode::Block, Some("c1"), None).unwrap();
    assert_eq!(
        b,
        obj(vec![
            ("inputs", obj(vec![])),
            ("query", s("hi")),
            ("user", s("u1")),
            ("response_mode", s("blocking")),
            ("conversation_id", s("c1")),
        ])
    );
}

#[test]
fn chat_body_with_files() {
    let files = JsonValue::Array(vec![obj(vec![("type", s("image"))])]);
    let b = chat_payload(obj(vec![]), "hi", "u1", ResponseMode::Stream, Some("c1"), Some(files))
        .unwrap();
    assert_eq!(
        b,
        obj(vec![
            ("inputs", obj(vec![])),
            ("query", s("hi")),
            ("user", s("u1")),
            ("response_mode", s("streaming")),
            ("conversation_id", s("c1")),
            ("files", JsonValue::Array(vec![obj(vec![("type", s("image"))])])),
        ])
    );
}

#[test]
fn chat_message_request() {
    let c = ChatClient::new("key", None);
    let r = c
        .create_chat_message(obj(vec![]), "hi", "u1", ResponseMode::Block, None, None)
        .unwrap();
    assert_eq!(r.url, "https://api.dify.ai/v1/chat-messages");
    assert_eq!(r.response_mode, ResponseMode::Block);
    assert_eq!(
        r.body,
        RequestBody::Json(obj(vec![
            ("inputs", obj(vec![])),
            ("query", s("hi")),
            ("user", s("u1")),
            ("response_mode", s("blocking")),
        ]))
    );
}

#[test]
fn inputs_must_be_an_object() {
    let r = chat_payload(s("x"), "hi", "u1", ResponseMode::Block, None, None);
    assert_eq!(r, Err(ClientError::MalformedRequest(MalformedReason::NotAnObject)));
    let c = WorkflowClient::new("key", None);
    let r = c.run(JsonValue::Array(vec![]), ResponseMode::Block, None);
    assert_eq!(r, Err(ClientError::MalformedRequest(MalformedReason::NotAnObject)));
}

#[test]
fn files_must_be_an_array() {
    let r = completion_payload(obj(vec![]), "blocking", "u1", Some(obj(vec![])));
    assert_eq!(r, Err(ClientError::MalformedRequest(MalformedReason::NotAnArray)));
}

#[test]
fn completion_body_and_mode() {
    let b = completion_payload(obj(vec![("a", s("1"))]), "blocking", "u1", None).unwrap();
    assert_eq!(
        b,
        obj(vec![
            ("inputs", obj(vec![("a", s("1"))])),
            ("response_mode", s("blocking")),
            ("user", s("u1")),
        ])
    );
    let c = CompletionClient::new("key", None);
    let r = c.create_completion_message(obj(vec![]), "streaming", "u1", None).unwrap();
    assert_eq!(r.url, "https://api.dify.ai/v1/completion-messages");
    assert_eq!(r.response_mode, ResponseMode::Stream);
    let r = c.create_completion_message(obj(vec![]), "blocking", "u1", None).unwrap();
    assert_eq!(r.response_mode, ResponseMode::Block);
}

#[test]
fn workflow_default_user() {
    let b = workflow_payload(obj(vec![]), ResponseMode::Stream, None).unwrap();
    assert_eq!(
        b,
        obj(vec![
            ("inputs", obj(vec![])),
            ("response_mode", s("streaming")),
            ("user", s("abc-123")),
        ])
    );
    let c = WorkflowClient::new("key", None);
    let r = c.run(obj(vec![]), ResponseMode::Block, Some("u9")).unwrap();
    assert_eq!(r.url, "https://api.dify.ai/v1/workflows/run");
    assert_eq!(
        r.body,
        RequestBody::Json(obj(vec![
            ("inputs", obj(vec![])),
            ("response_mode", s("blocking")),
            ("user", s("u9")),
        ]))
    );
}
