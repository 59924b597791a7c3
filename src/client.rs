use vstd::prelude::*;
use crate::error::{ClientError, MalformedReason};
use crate::json::JsonValue;
use crate::mode::ResponseMode;
use crate::request::{
    bearer, header_is, header_text_ok, lacks_header, query_of_entries, query_ok, query_pairs,
    header_value_accepted, transport_accepts_url, url_accepted, HttpMethod, MultipartForm,
    PreparedRequest, RequestBody,
};

verus! {

/// The service root used when no base URL is given.
pub const DEFAULT_BASE_URL: &'static str = "https://api.dify.ai/v1";

/// What a client holds: the API key and the base URL every endpoint is joined to.
pub struct ClientConfig {
    pub api_key: Seq<char>,
    pub base_url: Seq<char>,
}

/// A client for the API; it builds authenticated requests for a transport to send.
/// Its configuration is fixed once it is made.
pub struct DifyClient {
    api_key: String,
    base_url: String,
}

impl View for DifyClient {
    type V = ClientConfig;

    closed spec fn view(&self) -> ClientConfig {
        ClientConfig { api_key: self.api_key@, base_url: self.base_url@ }
    }
}

/// Whether `r` failed before any I/O, for the reason `why`.
pub open spec fn fails_with<T>(r: Result<T, ClientError>, why: MalformedReason) -> bool {
    match r {
        Err(ClientError::MalformedRequest(w)) => w == why,
        _ => false,
    }
}

/// The first thing wrong with a JSON request, in the order they are checked:
/// the URL, then the bearer token, then the query parameters.
pub open spec fn json_check(url_ok: bool, key: Seq<char>, params: Option<JsonValue>) -> Option<
    MalformedReason,
> {
    if !url_ok {
        Some(MalformedReason::InvalidUrl)
    } else if !header_text_ok(bearer(key)) {
        Some(MalformedReason::InvalidHeaderValue)
    } else if params is Some && !query_ok(params->0) {
        Some(MalformedReason::UnsupportedQuery)
    } else {
        None
    }
}

/// A JSON request to `url` with `Content-Type: application/json` and bearer
/// authentication, to be consumed in `mode`; its body and query are left open.
pub open spec fn json_envelope(
    req: PreparedRequest,
    method: HttpMethod,
    url: Seq<char>,
    key: Seq<char>,
    mode: ResponseMode,
) -> bool {
    &&& req.method == method
    &&& req.url@ == url
    &&& req.headers@.len() == 2
    &&& req.headers@[0].0@ == "Content-Type"@
    &&& req.headers@[0].1@ == "application/json"@
    &&& req.headers@[1].0@ == "Authorization"@
    &&& req.headers@[1].1@ == bearer(key)
    &&& header_is(req.headers@, "Authorization"@, bearer(key))
    &&& header_is(req.headers@, "Content-Type"@, "application/json"@)
    &&& req.response_mode == mode
}

/// The JSON request for the given parts: the envelope above, the payload as
/// body verbatim, and the parameters as query.
pub open spec fn json_request_shape(
    req: PreparedRequest,
    method: HttpMethod,
    url: Seq<char>,
    key: Seq<char>,
    json: Option<JsonValue>,
    params: Option<JsonValue>,
    mode: ResponseMode,
) -> bool {
    &&& json_envelope(req, method, url, key, mode)
    &&& match json {
        Some(j) => req.body == RequestBody::Json(j),
        None => req.body is Empty,
    }
    &&& match params {
        Some(JsonValue::Object(es)) => query_of_entries(es@, req.query@),
        _ => req.query@.len() == 0,
    }
}

/// The first thing wrong with a multipart request: the bearer token, then the URL.
pub open spec fn multipart_check(url_ok: bool, key: Seq<char>) -> Option<MalformedReason> {
    if !header_text_ok(bearer(key)) {
        Some(MalformedReason::InvalidHeaderValue)
    } else if !url_ok {
        Some(MalformedReason::InvalidUrl)
    } else {
        None
    }
}

/// The multipart request for the given parts: bearer authentication only, no
/// Content-Type of its own (the transport derives it from the boundary), and a
/// body of exactly the metadata part and the file part.
pub open spec fn multipart_request_shape(
    req: PreparedRequest,
    method: HttpMethod,
    url: Seq<char>,
    key: Seq<char>,
    data: JsonValue,
    file: Seq<u8>,
) -> bool {
    &&& req.method == method
    &&& req.url@ == url
    &&& req.headers@.len() == 1
    &&& req.headers@[0].0@ == "Authorization"@
    &&& req.headers@[0].1@ == bearer(key)
    &&& header_is(req.headers@, "Authorization"@, bearer(key))
    &&& lacks_header(req.headers@, "Content-Type"@)
    &&& forall|i: int|
        0 <= i < req.headers@.len() && (#[trigger] req.headers@[i]).0@ == "Content-Type"@
            ==> req.headers@[i].1@ != "application/json"@
    &&& req.body is Multipart
    &&& req.body->Multipart_0.data == data
    &&& req.body->Multipart_0.file@ == file
    &&& req.query@.len() == 0
    &&& req.response_mode == ResponseMode::Block
}

/// The bearer token for an API key.
fn bearer_token(api_key: &str) -> (r: String)
    ensures
        r@ == bearer(api_key@),
{
    let mut auth = "Bearer ".to_owned();
    auth.append(api_key);
    auth
}

/// Assembles a JSON request once the transport's verdict on the URL is known.
pub fn assemble_json_request(
    method: HttpMethod,
    url: String,
    url_ok: bool,
    api_key: &str,
    json: Option<JsonValue>,
    params: Option<JsonValue>,
    mode: ResponseMode,
) -> (r: Result<PreparedRequest, ClientError>)
    ensures
        match json_check(url_ok, api_key@, params) {
            Some(why) => fails_with(r, why),
            None => r is Ok && json_request_shape(r->Ok_0, method, url@, api_key@, json, params, mode),
        },
{
    if !url_ok {
        return Err(ClientError::MalformedRequest(MalformedReason::InvalidUrl));
    }
    let auth = bearer_token(api_key);
    if !header_value_accepted(&auth) {
        return Err(ClientError::MalformedRequest(MalformedReason::InvalidHeaderValue));
    }
    let query = match &params {
        Some(p) => {
            match query_pairs(p) {
                Ok(q) => q,
                Err(e) => {
                    return Err(e);
                },
            }
        },
        None => Vec::new(),
    };
    let headers = vec![
        ("Content-Type".to_owned(), "application/json".to_owned()),
        ("Authorization".to_owned(), auth),
    ];
    proof {
        reveal_strlit("Content-Type");
        reveal_strlit("Authorization");
        assert(headers@[1].0@ == "Authorization"@);
        assert("Authorization"@.len() != "Content-Type"@.len());
        assert(headers@[1].0@ != "Content-Type"@);
        assert(headers@[0].0@ != "Authorization"@);
    }
    let body = match json {
        Some(j) => RequestBody::Json(j),
        None => RequestBody::Empty,
    };
    Ok(PreparedRequest { method, url, headers, query, body, response_mode: mode })
}

/// Assembles a multipart upload once the transport's verdict on the URL is known.
pub fn assemble_multipart_request(
    method: HttpMethod,
    url: String,
    url_ok: bool,
    api_key: &str,
    data: JsonValue,
    file: Vec<u8>,
) -> (r: Result<PreparedRequest, ClientError>)
    ensures
        match multipart_check(url_ok, api_key@) {
            Some(why) => fails_with(r, why),
            None => r is Ok && multipart_request_shape(r->Ok_0, method, url@, api_key@, data, file@),
        },
{
    let auth = bearer_token(api_key);
    if !header_value_accepted(&auth) {
        return Err(ClientError::MalformedRequest(MalformedReason::InvalidHeaderValue));
    }
    if !url_ok {
        return Err(ClientError::MalformedRequest(MalformedReason::InvalidUrl));
    }
    let headers = vec![("Authorization".to_owned(), auth)];
    proof {
        reveal_strlit("Content-Type");
        reveal_strlit("Authorization");
        assert(headers@[0].0@ == "Authorization"@);
        assert("Authorization"@.len() != "Content-Type"@.len());
        assert(headers@[0].0@ != "Content-Type"@);
    }
    let body = RequestBody::Multipart(MultipartForm { data, file });
    Ok(
        PreparedRequest {
            method,
            url,
            headers,
            query: Vec::new(),
            body,
            response_mode: ResponseMode::Block,
        },
    )
}

/// The base URL given, or the default service root without one.
pub open spec fn base_url_or_default(base_url: Option<&str>) -> Seq<char> {
    match base_url {
        Some(b) => b@,
        None => DEFAULT_BASE_URL@,
    }
}

impl DifyClient {
    /// Makes a client for `api_key`, joined to `base_url` or, without one, to
    /// the default service root.
    pub fn new(api_key: &str, base_url: Option<&str>) -> (r: Self)
        ensures
            r@.api_key == api_key@,
            r@.base_url == base_url_or_default(base_url),
    {
        let base = match base_url {
            Some(b) => b.to_owned(),
            None => DEFAULT_BASE_URL.to_owned(),
        };
        DifyClient { api_key: api_key.to_owned(), base_url: base }
    }

    /// The API key the client authenticates with.
    pub fn api_key(&self) -> (r: &str)
        ensures
            r@ == self@.api_key,
    {
        self.api_key.as_str()
    }

    /// The base URL endpoints are joined to.
    pub fn base_url(&self) -> (r: &str)
        ensures
            r@ == self@.base_url,
    {
        self.base_url.as_str()
    }

    /// The URL of an endpoint: the base URL followed by the endpoint, as given.
    pub fn endpoint_url(&self, endpoint: &str) -> (r: String)
        ensures
            r@ == self@.base_url + endpoint@,
    {
        let mut url = self.base_url.clone();
        url.append(endpoint);
        url
    }

    /// Builds an authenticated JSON request for `endpoint`, with an optional
    /// payload as body and optional query parameters.
    pub fn build_request(
        &self,
        method: HttpMethod,
        endpoint: &str,
        json: Option<JsonValue>,
        params: Option<JsonValue>,
        mode: ResponseMode,
    ) -> (r: Result<PreparedRequest, ClientError>)
        ensures
            match json_check(url_accepted(self@.base_url + endpoint@), self@.api_key, params) {
                Some(why) => fails_with(r, why),
                None => r is Ok && json_request_shape(
                    r->Ok_0,
                    method,
                    self@.base_url + endpoint@,
                    self@.api_key,
                    json,
                    params,
                    mode,
                ),
            },
    {
        let url = self.endpoint_url(endpoint);
        let url_ok = transport_accepts_url(url.as_str());
        assemble_json_request(method, url, url_ok, self.api_key.as_str(), json, params, mode)
    }

    /// Builds an authenticated multipart upload for `endpoint`: the metadata JSON
    /// as the `data` part and the file bytes as the `file` part.
    pub fn build_multipart(
        &self,
        method: HttpMethod,
        endpoint: &str,
        data: JsonValue,
        file: Vec<u8>,
    ) -> (r: Result<PreparedRequest, ClientError>)
        ensures
            match multipart_check(url_accepted(self@.base_url + endpoint@), self@.api_key) {
                Some(why) => fails_with(r, why),
                None => r is Ok && multipart_request_shape(
                    r->Ok_0,
                    method,
                    self@.base_url + endpoint@,
                    self@.api_key,
                    data,
                    file@,
                ),
            },
    {
        let url = self.endpoint_url(endpoint);
        let url_ok = transport_accepts_url(url.as_str());
        assemble_multipart_request(method, url, url_ok, self.api_key.as_str(), data, file)
    }
}

} // verus!
