use vstd::prelude::*;
use crate::error::{ClientError, MalformedReason};
use crate::json::{bool_text, JsonValue};
use crate::mode::ResponseMode;

verus! {

/// The HTTP methods the endpoints use.
#[derive(Debug, Clone, Copy, PartialEq, Eq, Structural)]
pub enum HttpMethod {
    Get,
    Post,
    Put,
    Patch,
    Delete,
}

impl HttpMethod {
    /// The method's name on the wire.
    pub fn as_str(&self) -> (r: &'static str)
        ensures
            r@ == method_name(*self),
    {
        match self {
            HttpMethod::Get => "GET",
            HttpMethod::Post => "POST",
            HttpMethod::Put => "PUT",
            HttpMethod::Patch => "PATCH",
            HttpMethod::Delete => "DELETE",
        }
    }
}

/// The name of a method on the wire.
pub open spec fn method_name(m: HttpMethod) -> Seq<char> {
    match m {
        HttpMethod::Get => "GET"@,
        HttpMethod::Post => "POST"@,
        HttpMethod::Put => "PUT"@,
        HttpMethod::Patch => "PATCH"@,
        HttpMethod::Delete => "DELETE"@,
    }
}

/// Name of the multipart text part that carries the metadata JSON.
pub const DATA_PART: &'static str = "data";

/// Name of the multipart part that carries the file bytes.
pub const FILE_PART: &'static str = "file";

/// The two parts of a file upload: metadata JSON and the raw file bytes.
#[derive(Debug, PartialEq)]
pub struct MultipartForm {
    pub data: JsonValue,
    pub file: Vec<u8>,
}

/// The body of a prepared request; JSON and multipart encodings exclude each other.
#[derive(Debug, PartialEq)]
pub enum RequestBody {
    Empty,
    Json(JsonValue),
    Multipart(MultipartForm),
}

/// A request ready to be handed to a transport, with authentication in place.
#[derive(Debug, PartialEq)]
pub struct PreparedRequest {
    pub method: HttpMethod,
    pub url: String,
    /// Header names and values, in the order they are set.
    pub headers: Vec<(String, String)>,
    /// Query string pairs, in order.
    pub query: Vec<(String, String)>,
    pub body: RequestBody,
    /// How the caller will consume the response body.
    pub response_mode: ResponseMode,
}

/// Whether a character may stand in a header value: visible ASCII, tab, or
/// anything outside ASCII; control characters and DEL may not.
pub open spec fn header_char_ok(c: char) -> bool {
    c == '\t' || ((c as u32) >= 32 && (c as u32) != 127)
}

/// Whether a text can be a header value.
pub open spec fn header_text_ok(s: Seq<char>) -> bool {
    forall|i: int| 0 <= i < s.len() ==> header_char_ok(#[trigger] s[i])
}

/// The Authorization header value for an API key.
pub open spec fn bearer(key: Seq<char>) -> Seq<char> {
    "Bearer "@ + key
}

/// The Authorization value can be sent exactly when the API key holds no
/// character that a header value cannot carry.
pub proof fn lemma_bearer_ok_iff_key_ok(key: Seq<char>)
    ensures
        header_text_ok(bearer(key)) <==> header_text_ok(key),
{
    reveal_strlit("Bearer ");
    let b = bearer(key);
    let n = "Bearer "@.len();
    assert forall|i: int| 0 <= i < n implies header_char_ok(#[trigger] b[i]) by {
        assert(b[i] == "Bearer "@[i]);
    }
    if header_text_ok(b) {
        assert forall|i: int| 0 <= i < key.len() implies header_char_ok(#[trigger] key[i]) by {
            assert(b[n + i] == key[i]);
        }
    }
}

/// Whether the header `name` is present and every header of that name holds `value`.
pub open spec fn header_is(hs: Seq<(String, String)>, name: Seq<char>, value: Seq<char>) -> bool {
    &&& exists|i: int| 0 <= i < hs.len() && (#[trigger] hs[i]).0@ == name
    &&& forall|i: int| 0 <= i < hs.len() && (#[trigger] hs[i]).0@ == name ==> hs[i].1@ == value
}

/// Whether no header is named `name`.
pub open spec fn lacks_header(hs: Seq<(String, String)>, name: Seq<char>) -> bool {
    forall|i: int| 0 <= i < hs.len() ==> (#[trigger] hs[i]).0@ != name
}

/// Whether the transport accepts `s` as a request URL: it parses as an
/// absolute URL that has a host.
pub uninterp spec fn url_accepted(s: Seq<char>) -> bool;

/// Relies on `reqwest::Url::parse` and `Url::has_host`, the test reqwest applies
/// to a request URL given as a string; the outcome depends on the text alone.
#[verifier::external_body]
pub(crate) fn transport_accepts_url(s: &str) -> (r: bool)
    ensures
        r == url_accepted(s@),
{
    match reqwest::Url::parse(s) {
        Ok(u) => u.has_host(),
        Err(_) => false,
    }
}

/// Relies on `reqwest::header::HeaderValue::from_str`, which rejects a text
/// exactly when one of its bytes is below 32 (but for tab) or is 127.
#[verifier::external_body]
pub(crate) fn header_value_accepted(s: &str) -> (r: bool)
    ensures
        r == header_text_ok(s@),
{
    reqwest::header::HeaderValue::from_str(s).is_ok()
}

/// The text of a JSON value as a query value, where it has one.
pub open spec fn query_text(v: JsonValue) -> Option<Seq<char>> {
    match v {
        JsonValue::Str(s) => Some(s@),
        JsonValue::Number(t) => Some(t@),
        JsonValue::Bool(b) => Some(bool_text(b)),
        _ => None,
    }
}

/// Whether `q` is the query string pairs of the object entries `es`.
pub open spec fn query_of_entries(es: Seq<(String, JsonValue)>, q: Seq<(String, String)>) -> bool {
    &&& q.len() == es.len()
    &&& forall|i: int|
        0 <= i < es.len() ==> (#[trigger] q[i]).0@ == es[i].0@ && query_text(es[i].1) == Some(
            q[i].1@,
        )
}

/// Whether every value of the entries has a query text.
pub open spec fn entries_flat(es: Seq<(String, JsonValue)>) -> bool {
    forall|i: int| 0 <= i < es.len() ==> (#[trigger] query_text(es[i].1)) is Some
}

/// Whether query parameters can be written as a query string.
pub open spec fn query_ok(params: JsonValue) -> bool {
    match params {
        JsonValue::Null => true,
        JsonValue::Object(es) => entries_flat(es@),
        _ => false,
    }
}

/// Turns query parameters into query string pairs: `null` gives none, an object
/// gives one pair per entry, in order, whose values are strings, numbers or
/// booleans; anything else is `UnsupportedQuery`.
pub fn query_pairs(params: &JsonValue) -> (r: Result<Vec<(String, String)>, ClientError>)
    ensures
        r is Ok <==> query_ok(*params),
        !query_ok(*params) ==> r == Err::<Vec<(String, String)>, ClientError>(
            ClientError::MalformedRequest(MalformedReason::UnsupportedQuery),
        ),
        r is Ok && *params is Null ==> r->Ok_0@.len() == 0,
        r is Ok && *params is Object ==> query_of_entries(params->Object_0@, r->Ok_0@),
{
    match params {
        JsonValue::Null => Ok(Vec::new()),
        JsonValue::Object(es) => {
            let mut q: Vec<(String, String)> = Vec::new();
            let mut i: usize = 0;
            while i < es.len()
                invariant
                    *params == JsonValue::Object(*es),
                    i <= es@.len(),
                    query_of_entries(es@.subrange(0, i as int), q@),
                    entries_flat(es@.subrange(0, i as int)),
                decreases es@.len() - i,
            {
                let e = &es[i];
                let text: String = match &e.1 {
                    JsonValue::Str(s) => s.clone(),
                    JsonValue::Number(t) => t.clone(),
                    JsonValue::Bool(b) => {
                        if *b {
                            "true".to_owned()
                        } else {
                            "false".to_owned()
                        }
                    },
                    _ => {
                        proof {
                            assert(query_text(es@[i as int].1) is None);
                            assert(!entries_flat(es@));
                            assert(!query_ok(*params));
                        }
                        return Err(ClientError::MalformedRequest(MalformedReason::UnsupportedQuery));
                    },
                };
                proof {
                    reveal_strlit("true");
                    reveal_strlit("false");
                }
                q.push((e.0.clone(), text));
                proof {
                    assert(es@.subrange(0, i + 1) =~= es@.subrange(0, i as int).push(es@[i as int]));
                }
                i = i + 1;
            }
            proof {
                assert(es@.subrange(0, es@.len() as int) =~= es@);
            }
            Ok(q)
        },
        _ => Err(ClientError::MalformedRequest(MalformedReason::UnsupportedQuery)),
    }
}

} // verus!
