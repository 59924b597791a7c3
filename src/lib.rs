//! A client for a conversational-AI HTTP API: authenticated request
//! construction (JSON or multipart), per-endpoint payload shaping, chunked
//! accumulation of file bytes and classification of response statuses.
//! Sending the requests is left to the caller's transport.
pub mod client;
pub mod error;
pub mod facades;
pub mod file_read;
pub mod json;
pub mod mode;
pub mod payload;
pub mod request;
pub mod response;

pub use client::{
    assemble_json_request, assemble_multipart_request, DifyClient, DEFAULT_BASE_URL,
};
pub use error::{ClientError, MalformedReason};
pub use facades::{ChatClient, CompletionClient, KnowledgeBaseClient, WorkflowClient};
pub use file_read::{FileBuffer, CHUNK_SIZE};
pub use json::{entry, json_str, JsonValue};
pub use mode::ResponseMode;
pub use payload::{
    chat_payload, check_inputs, completion_payload, dataset_payload, feedback_payload,
    user_object, workflow_payload, DEFAULT_WORKFLOW_USER,
};
pub use request::{
    query_pairs, HttpMethod, MultipartForm, PreparedRequest, RequestBody, DATA_PART, FILE_PART,
};
pub use response::{body_action, check_status, is_success_status, BodyAction};
