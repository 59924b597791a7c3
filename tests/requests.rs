use dify_client::{
    query_pairs, ChatClient, ClientError, DifyClient, HttpMethod, JsonValue, KnowledgeBaseClient,
    MalformedReason, RequestBody, ResponseMode,
};

fn s(x: &str) -> JsonValue {
    JsonValue::Str(x.to_string())
}

fn obj(es: Vec<(&str, JsonValue)>) -> JsonValue {
    JsonValue::Object(es.into_iter().map(|(k, v)| (k.to_string(), v)).collect())
}

fn header<'a>(hs: &'a [(String, String)], name: &str) -> Vec<&'a str> {
    hs.iter().filter(|(n, _)| n == name).map(|(_, v)| v.as_str()).collect()
}

#[test]
fn new_uses_default_base_url() {
    let c = DifyClient::new("key", None);
    assert_eq!(c.base_url(), "https://api.dify.ai/v1");
    assert_eq!(c.api_key(), "key");
    let c = DifyClient::new("key", Some("http://localhost:5001/v1"));
    assert_eq!(c.base_url(), "http://localhost:5001/v1");
}

#[test]
fn json_request_carries_bearer_and_content_type() {
    let c = DifyClient::new("app-123", None);
    let r = c
        .build_request(HttpMethod::Post, "/chat-messages", Some(obj(vec![])), None, ResponseMode::Block)
        .unwrap();
    assert_eq!(r.method, HttpMethod::Post);
    assert_eq!(r.url, "https://api.dify.ai/v1/chat-messages");
    assert_eq!(header(&r.headers, "Authorization"), vec!["Bearer app-123"]);
    assert_eq!(header(&r.headers, "Content-Type"), vec!["application/json"]);
    assert_eq!(r.body, RequestBody::Json(obj(vec![])));
    assert!(r.query.is_empty());
}

#[test]
fn endpoint_is_joined_without_normalizing() {
    let c = DifyClient::new("k", Some("https://example.com/v1/"));
    let r = c.build_request(HttpMethod::Get, "/x", None, None, ResponseMode::Block).unwrap();
    assert_eq!(r.url, "https://example.com/v1//x");
    assert_eq!(r.body, RequestBody::Empty);
}

#[test]
fn invalid_header_value_is_malformed() {
    let c = DifyClient::new("bad\nkey", None);
    let r = c.build_request(HttpMethod::Post, "/datasets", None, None, ResponseMode::Block);
    assert_eq!(r, Err(ClientError::MalformedRequest(MalformedReason::InvalidHeaderValue)));
}

#[test]
fn invalid_url_is_malformed() {
    let c = DifyClient::new("key", Some("not a url"));
    let r = c.build_request(HttpMethod::Post, "/datasets", None, None, ResponseMode::Block);
    assert_eq!(r, Err(ClientError::MalformedRequest(MalformedReason::InvalidUrl)));
    let c = DifyClient::new("key", Some("mailto:someone"));
    let r = c.build_request(HttpMethod::Post, "/datasets", None, None, ResponseMode::Block);
    assert_eq!(r, Err(ClientError::MalformedRequest(MalformedReason::InvalidUrl)));
}

#[test]
fn url_is_checked_before_header() {
    let c = DifyClient::new("bad\nkey", Some("not a url"));
    let r = c.build_request(HttpMethod::Post, "/datasets", None, None, ResponseMode::Block);
    assert_eq!(r, Err(ClientError::MalformedRequest(MalformedReason::InvalidUrl)));
}

#[test]
fn application_parameters_go_in_query() {
    let c = DifyClient::new("key", None);
    let r = c.get_application_parameters("u1").unwrap();
    assert_eq!(r.method, HttpMethod::Get);
    assert_eq!(r.url, "https://api.dify.ai/v1/parameters");
    assert_eq!(r.query, vec![("user".to_string(), "u1".to_string())]);
    assert_eq!(r.body, RequestBody::Empty);
    assert_eq!(header(&r.headers, "Authorization"), vec!["Bearer key"]);
}

#[test]
fn query_pairs_of_leaves() {
    let p = obj(vec![
        ("user", s("u1")),
        ("limit", JsonValue::Number("20".to_string())),
        ("pinned", JsonValue::Bool(true)),
        ("first", JsonValue::Bool(false)),
    ]);
    let q = query_pairs(&p).unwrap();
    let expect: Vec<(String, String)> = vec![
        ("user".to_string(), "u1".to_string()),
        ("limit".to_string(), "20".to_string()),
        ("pinned".to_string(), "true".to_string()),
        ("first".to_string(), "false".to_string()),
    ];
    assert_eq!(q, expect);
    assert_eq!(query_pairs(&JsonValue::Null).unwrap(), vec![]);
}

#[test]
fn nested_query_value_is_refused() {
    let bad = ClientError::MalformedRequest(MalformedReason::UnsupportedQuery);
    assert_eq!(query_pairs(&obj(vec![("a", obj(vec![]))])), Err(bad.clone()));
    assert_eq!(query_pairs(&obj(vec![("a", JsonValue::Null)])), Err(bad.clone()));
    assert_eq!(query_pairs(&obj(vec![("a", JsonValue::Array(vec![]))])), Err(bad.clone()));
    assert_eq!(query_pairs(&s("x")), Err(bad.clone()));
    let c = DifyClient::new("key", None);
    let r = c.build_request(HttpMethod::Get, "/p", None, Some(s("x")), ResponseMode::Block);
    assert_eq!(r, Err(bad));
}

#[test]
fn message_feedback_request() {
    let c = DifyClient::new("key", None);
    let r = c.message_feedback("m1", true, "u1").unwrap();
    assert_eq!(r.method, HttpMethod::Post);
    assert_eq!(r.url, "https://api.dify.ai/v1/messages/m1/feedbacks");
    assert_eq!(r.body, RequestBody::Json(obj(vec![("rating", JsonValue::Bool(true)), ("user", s("u1"))])));
    assert_eq!(r.response_mode, ResponseMode::Block);
}

#[test]
fn multipart_upload_has_no_json_content_type() {
    let c = DifyClient::new("key", None);
    let r = c.file_upload("u1", vec![1, 2, 3]).unwrap();
    assert_eq!(r.method, HttpMethod::Post);
    assert_eq!(r.url, "https://api.dify.ai/v1/files/upload");
    assert_eq!(header(&r.headers, "Authorization"), vec!["Bearer key"]);
    assert!(header(&r.headers, "Content-Type").is_empty());
    assert!(r.headers.iter().all(|(_, v)| v != "application/json"));
    match r.body {
        RequestBody::Multipart(form) => {
            assert_eq!(form.data, obj(vec![("user", s("u1"))]));
            assert_eq!(form.file, vec![1, 2, 3]);
        }
        other => panic!("expected a multipart body, got {:?}", other),
    }
}

#[test]
fn multipart_checks_header_before_url() {
    let c = DifyClient::new("bad\u{7f}key", Some("not a url"));
    let r = c.file_upload("u1", vec![]);
    assert_eq!(r, Err(ClientError::MalformedRequest(MalformedReason::InvalidHeaderValue)));
    let c = DifyClient::new("key", Some("not a url"));
    let r = c.file_upload("u1", vec![]);
    assert_eq!(r, Err(ClientError::MalformedRequest(MalformedReason::InvalidUrl)));
}

#[test]
fn tab_and_non_ascii_are_valid_header_text() {
    let c = DifyClient::new("k\tey\u{e9}", None);
    let r = c.build_request(HttpMethod::Get, "/p", None, None, ResponseMode::Block).unwrap();
    assert_eq!(header(&r.headers, "Authorization"), vec!["Bearer k\tey\u{e9}"]);
}

#[test]
fn chat_client_from_dify_client() {
    let c = ChatClient::from(DifyClient::new("key", Some("http://localhost/v1")));
    let r = c
        .create_chat_message(obj(vec![]), "hi", "u1", ResponseMode::Stream, None, None)
        .unwrap();
    assert_eq!(r.url, "http://localhost/v1/chat-messages");
    assert_eq!(r.response_mode, ResponseMode::Stream);
}

#[test]
fn knowledge_base_dataset_id() {
    let kb = KnowledgeBaseClient::new("key", None, Some("ds1"));
    assert_eq!(kb.get_dataset_id(), Ok("ds1"));
    let kb = KnowledgeBaseClient::new("key", None, None);
    assert_eq!(
        kb.get_dataset_id(),
        Err(ClientError::MalformedRequest(MalformedReason::MissingDatasetId))
    );
    let r = kb.create_dataset("docs").unwrap();
    assert_eq!(r.url, "https://api.dify.ai/v1/datasets");
    assert_eq!(r.body, RequestBody::Json(obj(vec![("name", s("docs"))])));
}
