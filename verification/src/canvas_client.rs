//! The client and its builder: the one place where the configuration is
//! checked, and the source of every request.

use vstd::prelude::*;
use vstd::utf8::encode_utf8;
use reqwest::header::{HeaderMap, HeaderValue};
use crate::error::CanvasError;
use crate::header::{
    bearer, header_map_values, header_value_from_str, insert_authorization, is_header_text,
    lemma_bearer_header_text, lemma_header_text_bytes, new_header_map, no_fields,
};
use crate::request::{bare_request, Method, Request, RequestView};

verus! {

/// `reqwest::Client`, the HTTP transport with its connection pool.
#[verifier::external_type_specification]
#[verifier::external_body]
pub struct ExTransport(reqwest::Client);

/// The API root that a client talks to unless it is given another.
pub const BASE_API_URL: &'static str = "https://canvas.instructure.com/api";

/// The main Canvas client: the configured transport, the API root and the
/// credential. It never changes once it is built.
pub struct CanvasClient {
    /// The HTTP client to send the requests with.
    http_client: reqwest::Client,
    /// The base API url of each request.
    api_url: String,
    /// The value of the `Authorization` header of each request.
    authorization: String,
}

/// What a [`CanvasClient`] is configured with.
pub struct CanvasClientView {
    /// The base API url.
    pub api_url: Seq<char>,
    /// The value of the `Authorization` header.
    pub authorization: Seq<char>,
}

/// Configures a [`CanvasClient`].
pub struct CanvasClientBuilder {
    /// The configuration to create the client with.
    config: CanvasClientConfig,
}

struct CanvasClientConfig {
    /// The user token for making requests.
    canvas_token: String,
    /// The url for API requests.
    api_url: String,
}

/// What a [`CanvasClientBuilder`] holds.
pub struct CanvasClientBuilderView {
    /// The access token.
    pub token: Seq<char>,
    /// The base API url.
    pub api_url: Seq<char>,
}

impl CanvasClientView {
    /// The URL of `path` below the API root: the root, one slash, the path,
    /// and nothing else done to either.
    pub open spec fn url(self, path: Seq<char>) -> Seq<char> {
        self.api_url + "/"@ + path
    }

    /// The request that this client starts for `path`.
    pub open spec fn request(self, method: Method, path: Seq<char>) -> RequestView {
        bare_request(method, self.url(path), self.authorization)
    }
}

impl CanvasClientBuilderView {
    /// The client that this configuration describes: it talks to the
    /// configured url and presents the token as a bearer token.
    pub open spec fn client(self) -> CanvasClientView {
        CanvasClientView { api_url: self.api_url, authorization: bearer(self.token) }
    }
}

impl View for CanvasClientBuilder {
    type V = CanvasClientBuilderView;

    closed spec fn view(&self) -> CanvasClientBuilderView {
        CanvasClientBuilderView { token: self.config.canvas_token@, api_url: self.config.api_url@ }
    }
}

impl View for CanvasClient {
    type V = CanvasClientView;

    closed spec fn view(&self) -> CanvasClientView {
        CanvasClientView { api_url: self.api_url@, authorization: self.authorization@ }
    }
}

/// The default headers of a transport, which it sends with every request
/// that does not set them itself: under each field name, in lower case, the
/// bytes of each of its values in order.
pub uninterp spec fn transport_headers(transport: reqwest::Client) -> Map<Seq<char>, Seq<Seq<u8>>>;

/// `reqwest::Client::builder`, `ClientBuilder::default_headers` and
/// `ClientBuilder::build`, for a map that holds the `authorization` field
/// with one value and no other field: a transport whose default headers
/// hold that field with that value, or the error of setting one up. Which of
/// the two comes back depends on the machine (the TLS backend, the system's
/// configuration), so success is not claimed.
#[verifier::external_body]
fn build_http_client(
    headers: HeaderMap<HeaderValue>,
) -> (r: Result<reqwest::Client, reqwest::Error>)
    requires
        header_map_values(headers).dom() =~= set!["authorization"@],
        header_map_values(headers)["authorization"@].len() == 1,
    ensures
        r matches Ok(transport) ==> transport_headers(transport).contains_key("authorization"@)
            && transport_headers(transport)["authorization"@] == header_map_values(
            headers,
        )["authorization"@],
{
    reqwest::Client::builder().default_headers(headers).build()
}

impl CanvasClient {
    #[verifier::type_invariant]
    spec fn credential_is_header_text(self) -> bool {
        is_header_text(self.authorization@)
    }

    /// Creates a new [`CanvasClientBuilder`] to configure a [`CanvasClient`].
    ///
    /// This is the same as [`CanvasClientBuilder::new()`].
    pub fn builder(canvas_token: String) -> (builder: CanvasClientBuilder)
        ensures
            builder@ == (CanvasClientBuilderView { token: canvas_token@, api_url: BASE_API_URL@ }),
    {
        CanvasClientBuilder::new(canvas_token)
    }

    /// The base API url.
    pub fn api_url(&self) -> (url: &str)
        ensures
            url@ == self@.api_url,
    {
        self.api_url.as_str()
    }

    /// The value of the `Authorization` header, which is always a text that
    /// a header can hold.
    pub fn authorization(&self) -> (value: &str)
        ensures
            value@ == self@.authorization,
            is_header_text(value@),
    {
        proof {
            use_type_invariant(self);
        }
        self.authorization.as_str()
    }

    /// The transport that this client owns: the one that was set up when the
    /// client was built, with its connection pool and its default headers.
    pub closed spec fn transport(&self) -> reqwest::Client {
        self.http_client
    }

    /// The transport to send this client's requests with. It is the one
    /// transport that the client owns, the same at every call, so that all
    /// requests of a client go through one connection pool.
    pub fn http_client(&self) -> (transport: &reqwest::Client)
        ensures
            *transport == self.transport(),
    {
        &self.http_client
    }

    fn make(&self, method: Method, path: &str) -> (request: Request)
        ensures
            request@ == self@.request(method, path@),
    {
        let mut url = self.api_url.clone();
        url.append("/");
        url.append(path);
        Request::new(method, url, self.authorization.clone())
    }

    /// Starts a `GET` request for `path`, taken relative to the API root.
    pub fn make_query(&self, path: &str) -> (request: Request)
        ensures
            request@ == self@.request(Method::Get, path@),
    {
        self.make(Method::Get, path)
    }

    /// Starts a `PUT` request for `path`, taken relative to the API root.
    pub fn make_put(&self, path: &str) -> (request: Request)
        ensures
            request@ == self@.request(Method::Put, path@),
    {
        self.make(Method::Put, path)
    }

    /// Starts a `POST` request for `path`, taken relative to the API root.
    pub fn make_post(&self, path: &str) -> (request: Request)
        ensures
            request@ == self@.request(Method::Post, path@),
    {
        self.make(Method::Post, path)
    }

    /// Starts a `DELETE` request for `path`, taken relative to the API root.
    pub fn make_delete(&self, path: &str) -> (request: Request)
        ensures
            request@ == self@.request(Method::Delete, path@),
    {
        self.make(Method::Delete, path)
    }
}

impl CanvasClientBuilder {
    /// Creates a new [`CanvasClientBuilder`] to configure a [`CanvasClient`].
    pub fn new(canvas_token: String) -> (builder: Self)
        ensures
            builder@ == (CanvasClientBuilderView { token: canvas_token@, api_url: BASE_API_URL@ }),
    {
        Self {
            config: CanvasClientConfig { canvas_token, api_url: String::from_str(BASE_API_URL) },
        }
    }

    /// Sets the base API url to perform requests to. Defaults to
    /// [`BASE_API_URL`] if not specified.
    pub fn set_api_url(self, api_url: &str) -> (builder: CanvasClientBuilder)
        ensures
            builder@ == (CanvasClientBuilderView { token: self@.token, api_url: api_url@ }),
    {
        let mut builder = self;
        builder.config.api_url = String::from_str(api_url);
        builder
    }

    fn credential(&self) -> (authorization: String)
        ensures
            authorization@ == bearer(self@.token),
    {
        String::from_str("Bearer ").concat(self.config.canvas_token.as_str())
    }

    /// The headers that the client will send with every request: the
    /// `Authorization` header that presents the token as a bearer token, and
    /// no other. A token that cannot stand in a header is refused.
    pub fn default_headers(&self) -> (r: Result<HeaderMap<HeaderValue>, CanvasError>)
        ensures
            r is Ok <==> is_header_text(self@.token),
            r matches Ok(headers) ==> header_map_values(headers) == no_fields().insert(
                "authorization"@,
                seq![encode_utf8(bearer(self@.token))],
            ),
            r matches Err(e) ==> e is CreatingHeader,
    {
        let authorization = self.credential();
        proof {
            lemma_header_text_bytes(authorization@);
            lemma_bearer_header_text(self@.token);
        }
        match header_value_from_str(authorization.as_str()) {
            Ok(value) => {
                let mut headers = new_header_map();
                insert_authorization(&mut headers, value);
                Ok(headers)
            },
            Err(e) => Err(CanvasError::CreatingHeader { header: e }),
        }
    }

    /// Ends the build once the transport has been set up, or has failed to
    /// be.
    fn finish(
        self,
        transport: Result<reqwest::Client, reqwest::Error>,
    ) -> (r: Result<CanvasClient, CanvasError>)
        requires
            is_header_text(self@.token),
        ensures
            transport matches Ok(built) ==> r is Ok && r->Ok_0@ == self@.client()
                && r->Ok_0.transport() == built,
            transport matches Err(e) ==> r is Err && r->Err_0 == CanvasError::Reqwest(e),
    {
        match transport {
            Ok(http_client) => {
                let authorization = self.credential();
                proof {
                    lemma_bearer_header_text(self@.token);
                }
                Ok(CanvasClient { http_client, api_url: self.config.api_url, authorization })
            },
            Err(e) => Err(CanvasError::Reqwest(e)),
        }
    }

    /// Builds the [`CanvasClient`]. No request is sent.
    ///
    /// A token that cannot stand in a header is refused with
    /// [`CanvasError::CreatingHeader`], and no other input is. For any other
    /// token the transport is set up with the headers of
    /// [`CanvasClientBuilder::default_headers`], and the client comes back
    /// with the configured url and the bearer credential, unless the
    /// transport cannot be set up on this machine, which is reported as
    /// [`CanvasError::Reqwest`]. The transport of a client that comes back
    /// sends the bearer credential as its default `Authorization` header.
    pub fn build(self) -> (r: Result<CanvasClient, CanvasError>)
        ensures
            !is_header_text(self@.token) ==> r is Err && r->Err_0 is CreatingHeader,
            is_header_text(self@.token) ==> match r {
                Ok(client) => client@ == self@.client(),
                Err(e) => e is Reqwest,
            },
            r matches Ok(client) ==> transport_headers(client.transport()).contains_key(
                "authorization"@,
            ) && transport_headers(client.transport())["authorization"@] == seq![
                encode_utf8(bearer(self@.token)),
            ],
    {
        match self.default_headers() {
            Ok(headers) => {
                let transport = build_http_client(headers);
                self.finish(transport)
            },
            Err(e) => Err(e),
        }
    }
}

/// Two tokens that differ make two credentials that differ.
pub proof fn lemma_bearer_tells_tokens_apart(a: Seq<char>, b: Seq<char>)
    requires
        a != b,
    ensures
        bearer(a) != bearer(b),
{
    let prefix = "Bearer "@;
    if bearer(a) == bearer(b) {
        assert(a =~= bearer(a).subrange(prefix.len() as int, bearer(a).len() as int));
        assert(b =~= bearer(b).subrange(prefix.len() as int, bearer(b).len() as int));
    }
}

/// Every request reflects the client that started it and no other: it
/// carries that client's credential and goes to that client's url, however
/// it is composed further, and the requests of two clients that were built
/// with different tokens never carry the same credential.
pub proof fn lemma_requests_keep_their_client(
    a: CanvasClientBuilderView,
    b: CanvasClientBuilderView,
    method: Method,
    path: Seq<char>,
    key: Seq<char>,
    value: Option<Seq<char>>,
    fields: Seq<(Seq<char>, Seq<char>)>,
)
    ensures
        a.client().request(method, path).authorization == bearer(a.token),
        a.client().request(method, path).url == a.api_url + "/"@ + path,
        a.client().request(method, path).with_param(key, value).authorization == bearer(a.token),
        a.client().request(method, path).with_form(fields).authorization == bearer(a.token),
        a.token != b.token ==> a.client().request(method, path).authorization != b.client().request(
            method,
            path,
        ).authorization,
{
    if a.token != b.token {
        lemma_bearer_tells_tokens_apart(a.token, b.token);
    }
}

} // verus!
