use vstd::prelude::*;
use crate::error::{ClientError, MalformedReason};
use crate::json::{entry, entry_is, json_str, str_entry_is, JsonValue};
use crate::mode::{wire_of, ResponseMode};

verus! {

/// The user a workflow run is attributed to when none is given.
pub const DEFAULT_WORKFLOW_USER: &'static str = "abc-123";

/// The first thing wrong with the caller's `inputs` and `files`: inputs must
/// be an object, files (when given) an array.
pub open spec fn payload_check(inputs: JsonValue, files: Option<JsonValue>) -> Option<MalformedReason> {
    if !(inputs is Object) {
        Some(MalformedReason::NotAnObject)
    } else if files is Some && !(files->0 is Array) {
        Some(MalformedReason::NotAnArray)
    } else {
        None
    }
}

/// Whether `v` is a JSON object whose entries satisfy `p`.
pub open spec fn object_with(v: JsonValue, p: spec_fn(Seq<(String, JsonValue)>) -> bool) -> bool {
    v is Object && p(v->Object_0@)
}

/// The body `{"rating": rating, "user": user}`.
pub open spec fn feedback_body_is(v: JsonValue, rating: bool, user: Seq<char>) -> bool {
    object_with(
        v,
        |es: Seq<(String, JsonValue)>|
            es.len() == 2 && entry_is(es[0], "rating"@, JsonValue::Bool(rating)) && str_entry_is(
                es[1],
                "user"@,
                user,
            ),
    )
}

/// The object `{"user": user}`.
pub open spec fn user_object_is(v: JsonValue, user: Seq<char>) -> bool {
    object_with(v, |es: Seq<(String, JsonValue)>| es.len() == 1 && str_entry_is(es[0], "user"@, user))
}

/// The body `{"name": name}`.
pub open spec fn dataset_body_is(v: JsonValue, name: Seq<char>) -> bool {
    object_with(v, |es: Seq<(String, JsonValue)>| es.len() == 1 && str_entry_is(es[0], "name"@, name))
}

/// The completion body: `inputs`, `response_mode`, `user`, then `files` when given.
pub open spec fn completion_body_is(
    v: JsonValue,
    inputs: JsonValue,
    mode: Seq<char>,
    user: Seq<char>,
    files: Option<JsonValue>,
) -> bool {
    object_with(
        v,
        |es: Seq<(String, JsonValue)>|
            {
                &&& es.len() == if files is Some {
                    4int
                } else {
                    3int
                }
                &&& entry_is(es[0], "inputs"@, inputs)
                &&& str_entry_is(es[1], "response_mode"@, mode)
                &&& str_entry_is(es[2], "user"@, user)
                &&& files is Some ==> entry_is(es[3], "files"@, files->0)
            },
    )
}

/// The chat body: `inputs`, `query`, `user`, `response_mode`, then
/// `conversation_id` and `files`, each only when given.
pub open spec fn chat_body_is(
    v: JsonValue,
    inputs: JsonValue,
    query: Seq<char>,
    user: Seq<char>,
    mode: ResponseMode,
    conversation_id: Option<Seq<char>>,
    files: Option<JsonValue>,
) -> bool {
    object_with(
        v,
        |es: Seq<(String, JsonValue)>|
            {
                let extra: int = if conversation_id is Some {
                    1
                } else {
                    0
                };
                &&& es.len() == 4 + extra + if files is Some {
                    1int
                } else {
                    0int
                }
                &&& entry_is(es[0], "inputs"@, inputs)
                &&& str_entry_is(es[1], "query"@, query)
                &&& str_entry_is(es[2], "user"@, user)
                &&& str_entry_is(es[3], "response_mode"@, wire_of(mode))
                &&& conversation_id is Some ==> str_entry_is(
                    es[4],
                    "conversation_id"@,
                    conversation_id->0,
                )
                &&& files is Some ==> entry_is(es[4 + extra], "files"@, files->0)
            },
    )
}

/// The workflow body: `inputs`, `response_mode`, `user`.
pub open spec fn workflow_body_is(v: JsonValue, inputs: JsonValue, mode: ResponseMode, user: Seq<char>) -> bool {
    object_with(
        v,
        |es: Seq<(String, JsonValue)>|
            es.len() == 3 && entry_is(es[0], "inputs"@, inputs) && str_entry_is(
                es[1],
                "response_mode"@,
                wire_of(mode),
            ) && str_entry_is(es[2], "user"@, user),
    )
}

/// The user a workflow run is attributed to.
pub open spec fn workflow_user(user: Option<&str>) -> Seq<char> {
    match user {
        Some(u) => u@,
        None => DEFAULT_WORKFLOW_USER@,
    }
}

/// Checks the shapes of the caller's `inputs` and `files`.
pub fn check_inputs(inputs: &JsonValue, files: &Option<JsonValue>) -> (r: Result<(), ClientError>)
    ensures
        match payload_check(*inputs, *files) {
            Some(why) => r == Err::<(), ClientError>(ClientError::MalformedRequest(why)),
            None => r is Ok,
        },
{
    match inputs {
        JsonValue::Object(_) => {},
        _ => {
            return Err(ClientError::MalformedRequest(MalformedReason::NotAnObject));
        },
    }
    match files {
        Some(JsonValue::Array(_)) => Ok(()),
        Some(_) => Err(ClientError::MalformedRequest(MalformedReason::NotAnArray)),
        None => Ok(()),
    }
}

/// The feedback body `{"rating": rating, "user": user}`.
pub fn feedback_payload(rating: bool, user: &str) -> (r: JsonValue)
    ensures
        feedback_body_is(r, rating, user@),
{
    let es = vec![entry("rating", JsonValue::Bool(rating)), entry("user", json_str(user))];
    JsonValue::Object(es)
}

/// The object `{"user": user}`, used as query and as upload metadata.
pub fn user_object(user: &str) -> (r: JsonValue)
    ensures
        user_object_is(r, user@),
{
    JsonValue::Object(vec![entry("user", json_str(user))])
}

/// The dataset body `{"name": name}`.
pub fn dataset_payload(name: &str) -> (r: JsonValue)
    ensures
        dataset_body_is(r, name@),
{
    JsonValue::Object(vec![entry("name", json_str(name))])
}

/// The completion body, after the shapes of `inputs` and `files` are checked.
pub fn completion_payload(
    inputs: JsonValue,
    response_mode: &str,
    user: &str,
    files: Option<JsonValue>,
) -> (r: Result<JsonValue, ClientError>)
    ensures
        match payload_check(inputs, files) {
            Some(why) => r == Err::<JsonValue, ClientError>(ClientError::MalformedRequest(why)),
            None => r is Ok && completion_body_is(r->Ok_0, inputs, response_mode@, user@, files),
        },
{
    match check_inputs(&inputs, &files) {
        Ok(()) => {},
        Err(e) => {
            return Err(e);
        },
    }
    let mut es = vec![
        entry("inputs", inputs),
        entry("response_mode", json_str(response_mode)),
        entry("user", json_str(user)),
    ];
    match files {
        Some(f) => {
            es.push(entry("files", f));
        },
        None => {},
    }
    Ok(JsonValue::Object(es))
}

/// The chat body, after the shapes of `inputs` and `files` are checked.
pub fn chat_payload(
    inputs: JsonValue,
    query: &str,
    user: &str,
    response_mode: ResponseMode,
    conversation_id: Option<&str>,
    files: Option<JsonValue>,
) -> (r: Result<JsonValue, ClientError>)
    ensures
        match payload_check(inputs, files) {
            Some(why) => r == Err::<JsonValue, ClientError>(ClientError::MalformedRequest(why)),
            None => r is Ok && chat_body_is(
                r->Ok_0,
                inputs,
                query@,
                user@,
                response_mode,
                match conversation_id {
                    Some(c) => Some(c@),
                    None => None,
                },
                files,
            ),
        },
{
    match check_inputs(&inputs, &files) {
        Ok(()) => {},
        Err(e) => {
            return Err(e);
        },
    }
    let mut es = vec![
        entry("inputs", inputs),
        entry("query", json_str(query)),
        entry("user", json_str(user)),
        entry("response_mode", json_str(response_mode.as_str())),
    ];
    match conversation_id {
        Some(c) => {
            es.push(entry("conversation_id", json_str(c)));
        },
        None => {},
    }
    match files {
        Some(f) => {
            es.push(entry("files", f));
        },
        None => {},
    }
    Ok(JsonValue::Object(es))
}

/// The workflow body; without a user the run is attributed to the default one.
pub fn workflow_payload(inputs: JsonValue, response_mode: ResponseMode, user: Option<&str>) -> (r: Result<
    JsonValue,
    ClientError,
>)
    ensures
        match payload_check(inputs, None) {
            Some(why) => r == Err::<JsonValue, ClientError>(ClientError::MalformedRequest(why)),
            None => r is Ok && workflow_body_is(r->Ok_0, inputs, response_mode, workflow_user(user)),
        },
{
    match check_inputs(&inputs, &None) {
        Ok(()) => {},
        Err(e) => {
            return Err(e);
        },
    }
    let u = match user {
        Some(u) => u,
        None => DEFAULT_WORKFLOW_USER,
    };
    let es = vec![
        entry("inputs", inputs),
        entry("response_mode", json_str(response_mode.as_str())),
        entry("user", json_str(u)),
    ];
    Ok(JsonValue::Object(es))
}

} // verus!
