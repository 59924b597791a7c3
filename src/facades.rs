use vstd::prelude::*;
use crate::client::{
    base_url_or_default, fails_with, json_check, json_envelope, multipart_check, multipart_request_shape, ClientConfig,
    DifyClient,
};
use crate::error::{ClientError, MalformedReason};
use crate::json::JsonValue;
use crate::mode::{same_text, ResponseMode};
use crate::payload::{
    chat_body_is, chat_payload, completion_body_is, completion_payload, dataset_body_is,
    dataset_payload, feedback_body_is, feedback_payload, payload_check, user_object,
    user_object_is, workflow_body_is, workflow_payload, workflow_user,
};
use crate::request::{url_accepted, HttpMethod, PreparedRequest};

verus! {

/// The outcome of sending a JSON body to `url`: the checks of the builder, then
/// a request whose body satisfies `body` and which has no query.
pub open spec fn sends_json(
    r: Result<PreparedRequest, ClientError>,
    method: HttpMethod,
    url: Seq<char>,
    key: Seq<char>,
    mode: ResponseMode,
    body: spec_fn(JsonValue) -> bool,
) -> bool {
    match json_check(url_accepted(url), key, None) {
        Some(why) => fails_with(r, why),
        None => {
            &&& r is Ok
            &&& json_envelope(r->Ok_0, method, url, key, mode)
            &&& r->Ok_0.body is Json
            &&& body(r->Ok_0.body->Json_0)
            &&& r->Ok_0.query@.len() == 0
        },
    }
}

/// The endpoint for feedback on a message.
pub open spec fn feedback_endpoint(message_id: Seq<char>) -> Seq<char> {
    "/messages/"@ + message_id + "/feedbacks"@
}

/// The mode a completion's wire string asks for: streaming only for `"streaming"`.
pub open spec fn completion_mode(s: Seq<char>) -> ResponseMode {
    if s == "streaming"@ {
        ResponseMode::Stream
    } else {
        ResponseMode::Block
    }
}

impl DifyClient {
    /// `POST /messages/{message_id}/feedbacks` with `{"rating", "user"}`.
    pub fn message_feedback(&self, message_id: &str, rating: bool, user: &str) -> (r: Result<
        PreparedRequest,
        ClientError,
    >)
        ensures
            sends_json(
                r,
                HttpMethod::Post,
                self@.base_url + feedback_endpoint(message_id@),
                self@.api_key,
                ResponseMode::Block,
                |b: JsonValue| feedback_body_is(b, rating, user@),
            ),
    {
        let mut endpoint = "/messages/".to_owned();
        endpoint.append(message_id);
        endpoint.append("/feedbacks");
        let data = feedback_payload(rating, user);
        self.build_request(
            HttpMethod::Post,
            endpoint.as_str(),
            Some(data),
            None,
            ResponseMode::Block,
        )
    }

    /// `GET /parameters` with the query `user=<user>` and no body.
    pub fn get_application_parameters(&self, user: &str) -> (r: Result<
        PreparedRequest,
        ClientError,
    >)
        ensures
            match json_check(url_accepted(self@.base_url + "/parameters"@), self@.api_key, None) {
                Some(why) => fails_with(r, why),
                None => {
                    &&& r is Ok
                    &&& json_envelope(
                        r->Ok_0,
                        HttpMethod::Get,
                        self@.base_url + "/parameters"@,
                        self@.api_key,
                        ResponseMode::Block,
                    )
                    &&& r->Ok_0.body is Empty
                    &&& r->Ok_0.query@.len() == 1
                    &&& r->Ok_0.query@[0].0@ == "user"@
                    &&& r->Ok_0.query@[0].1@ == user@
                },
            },
    {
        let params = user_object(user);
        let ghost p = params;
        let r = self.build_request(
            HttpMethod::Get,
            "/parameters",
            None,
            Some(params),
            ResponseMode::Block,
        );
        proof {
            if r is Ok {
                assert(user_object_is(p, user@));
            }
        }
        r
    }

    /// `POST /files/upload` as multipart: `{"user": user}` as the `data` part and
    /// the file's bytes as the `file` part.
    pub fn file_upload(&self, user: &str, file: Vec<u8>) -> (r: Result<PreparedRequest, ClientError>)
        ensures
            match multipart_check(url_accepted(self@.base_url + "/files/upload"@), self@.api_key) {
                Some(why) => fails_with(r, why),
                None => {
                    &&& r is Ok
                    &&& multipart_request_shape(
                        r->Ok_0,
                        HttpMethod::Post,
                        self@.base_url + "/files/upload"@,
                        self@.api_key,
                        r->Ok_0.body->Multipart_0.data,
                        file@,
                    )
                    &&& user_object_is(r->Ok_0.body->Multipart_0.data, user@)
                },
            },
    {
        let data = user_object(user);
        self.build_multipart(HttpMethod::Post, "/files/upload", data, file)
    }
}

/// Completion messages.
pub struct CompletionClient {
    dify_client: DifyClient,
}

/// Chat messages.
pub struct ChatClient {
    dify_client: DifyClient,
}

/// Workflow runs.
pub struct WorkflowClient {
    dify_client: DifyClient,
}

/// Knowledge-base datasets.
pub struct KnowledgeBaseClient {
    dify_client: DifyClient,
    dataset_id: Option<String>,
}

impl View for CompletionClient {
    type V = ClientConfig;

    closed spec fn view(&self) -> ClientConfig {
        self.dify_client@
    }
}

impl View for ChatClient {
    type V = ClientConfig;

    closed spec fn view(&self) -> ClientConfig {
        self.dify_client@
    }
}

impl View for WorkflowClient {
    type V = ClientConfig;

    closed spec fn view(&self) -> ClientConfig {
        self.dify_client@
    }
}

impl View for KnowledgeBaseClient {
    type V = ClientConfig;

    closed spec fn view(&self) -> ClientConfig {
        self.dify_client@
    }
}

impl CompletionClient {
    pub fn new(api_key: &str, base_url: Option<&str>) -> (r: Self)
        ensures
            r@.api_key == api_key@,
            r@.base_url == base_url_or_default(base_url),
    {
        CompletionClient { dify_client: DifyClient::new(api_key, base_url) }
    }

    /// `POST /completion-messages`; the response is streamed exactly when
    /// `response_mode` is `"streaming"`.
    pub fn create_completion_message(
        &self,
        inputs: JsonValue,
        response_mode: &str,
        user: &str,
        files: Option<JsonValue>,
    ) -> (r: Result<PreparedRequest, ClientError>)
        ensures
            match payload_check(inputs, files) {
                Some(why) => fails_with(r, why),
                None => sends_json(
                    r,
                    HttpMethod::Post,
                    self@.base_url + "/completion-messages"@,
                    self@.api_key,
                    completion_mode(response_mode@),
                    |b: JsonValue| completion_body_is(b, inputs, response_mode@, user@, files),
                ),
            },
    {
        let data = match completion_payload(inputs, response_mode, user, files) {
            Ok(d) => d,
            Err(e) => {
                return Err(e);
            },
        };
        let mode = if same_text(response_mode, "streaming") {
            ResponseMode::Stream
        } else {
            ResponseMode::Block
        };
        self.dify_client.build_request(
            HttpMethod::Post,
            "/completion-messages",
            Some(data),
            None,
            mode,
        )
    }
}

impl ChatClient {
    pub fn new(api_key: &str, base_url: Option<&str>) -> (r: Self)
        ensures
            r@.api_key == api_key@,
            r@.base_url == base_url_or_default(base_url),
    {
        ChatClient { dify_client: DifyClient::new(api_key, base_url) }
    }

    /// `POST /chat-messages`; `conversation_id` and `files` are sent only when given.
    pub fn create_chat_message(
        &self,
        inputs: JsonValue,
        query: &str,
        user: &str,
        response_mode: ResponseMode,
        conversation_id: Option<&str>,
        files: Option<JsonValue>,
    ) -> (r: Result<PreparedRequest, ClientError>)
        ensures
            match payload_check(inputs, files) {
                Some(why) => fails_with(r, why),
                None => sends_json(
                    r,
                    HttpMethod::Post,
                    self@.base_url + "/chat-messages"@,
                    self@.api_key,
                    response_mode,
                    |b: JsonValue|
                        chat_body_is(
                            b,
                            inputs,
                            query@,
                            user@,
                            response_mode,
                            match conversation_id {
                                Some(c) => Some(c@),
                                None => None,
                            },
                            files,
                        ),
                ),
            },
    {
        let data = match chat_payload(inputs, query, user, response_mode, conversation_id, files) {
            Ok(d) => d,
            Err(e) => {
                return Err(e);
            },
        };
        self.dify_client.build_request(
            HttpMethod::Post,
            "/chat-messages",
            Some(data),
            None,
            response_mode,
        )
    }
}

impl WorkflowClient {
    pub fn new(api_key: &str, base_url: Option<&str>) -> (r: Self)
        ensures
            r@.api_key == api_key@,
            r@.base_url == base_url_or_default(base_url),
    {
        WorkflowClient { dify_client: DifyClient::new(api_key, base_url) }
    }

    /// `POST /workflows/run`; the response is always buffered.
    pub fn run(&self, inputs: JsonValue, response_mode: ResponseMode, user: Option<&str>) -> (r:
        Result<PreparedRequest, ClientError>)
        ensures
            match payload_check(inputs, None) {
                Some(why) => fails_with(r, why),
                None => sends_json(
                    r,
                    HttpMethod::Post,
                    self@.base_url + "/workflows/run"@,
                    self@.api_key,
                    ResponseMode::Block,
                    |b: JsonValue| workflow_body_is(b, inputs, response_mode, workflow_user(user)),
                ),
            },
    {
        let data = match workflow_payload(inputs, response_mode, user) {
            Ok(d) => d,
            Err(e) => {
                return Err(e);
            },
        };
        self.dify_client.build_request(
            HttpMethod::Post,
            "/workflows/run",
            Some(data),
            None,
            ResponseMode::Block,
        )
    }
}

impl KnowledgeBaseClient {
    pub fn new(api_key: &str, base_url: Option<&str>, dataset_id: Option<&str>) -> (r: Self)
        ensures
            r@.api_key == api_key@,
            r@.base_url == base_url_or_default(base_url),
            r.dataset_id() == match dataset_id {
                Some(d) => Some(d@),
                None => None,
            },
    {
        let id = match dataset_id {
            Some(d) => Some(d.to_owned()),
            None => None,
        };
        KnowledgeBaseClient { dify_client: DifyClient::new(api_key, base_url), dataset_id: id }
    }

    /// The dataset the client was made for, if any.
    pub closed spec fn dataset_id(&self) -> Option<Seq<char>> {
        match self.dataset_id {
            Some(d) => Some(d@),
            None => None,
        }
    }

    /// The dataset id, or `MissingDatasetId` when the client was made without one.
    pub fn get_dataset_id(&self) -> (r: Result<&str, ClientError>)
        ensures
            match self.dataset_id() {
                Some(d) => r is Ok && r->Ok_0@ == d,
                None => fails_with(r, MalformedReason::MissingDatasetId),
            },
    {
        match &self.dataset_id {
            Some(d) => Ok(d.as_str()),
            None => Err(ClientError::MalformedRequest(MalformedReason::MissingDatasetId)),
        }
    }

    /// `POST /datasets` with `{"name": name}`.
    pub fn create_dataset(&self, name: &str) -> (r: Result<PreparedRequest, ClientError>)
        ensures
            sends_json(
                r,
                HttpMethod::Post,
                self@.base_url + "/datasets"@,
                self@.api_key,
                ResponseMode::Block,
                |b: JsonValue| dataset_body_is(b, name@),
            ),
    {
        let data = dataset_payload(name);
        self.dify_client.build_request(HttpMethod::Post, "/datasets", Some(data), None, ResponseMode::Block)
    }
}

impl From<DifyClient> for ChatClient {
    fn from(value: DifyClient) -> (r: Self)
        ensures
            r@ == value@,
    {
        ChatClient { dify_client: value }
    }
}

impl vstd::std_specs::convert::FromSpecImpl<DifyClient> for ChatClient {
    open spec fn obeys_from_spec() -> bool {
        true
    }

    closed spec fn from_spec(v: DifyClient) -> Self {
        ChatClient { dify_client: v }
    }
}

impl From<DifyClient> for CompletionClient {
    fn from(value: DifyClient) -> (r: Self)
        ensures
            r@ == value@,
    {
        CompletionClient { dify_client: value }
    }
}

impl vstd::std_specs::convert::FromSpecImpl<DifyClient> for CompletionClient {
    open spec fn obeys_from_spec() -> bool {
        true
    }

    closed spec fn from_spec(v: DifyClient) -> Self {
        CompletionClient { dify_client: v }
    }
}

impl From<DifyClient> for WorkflowClient {
    fn from(value: DifyClient) -> (r: Self)
        ensures
            r@ == value@,
    {
        WorkflowClient { dify_client: value }
    }
}

impl vstd::std_specs::convert::FromSpecImpl<DifyClient> for WorkflowClient {
    open spec fn obeys_from_spec() -> bool {
        true
    }

    closed spec fn from_spec(v: DifyClient) -> Self {
        WorkflowClient { dify_client: v }
    }
}

} // verus!
