//! The client: its environment, credentials and bearer token, and the
//! requests it prepares for the KRA API.
use vstd::prelude::*;

use crate::error::{ErrorView, GavaConnectError};

verus! {

/// KRA environment selector.
#[derive(Debug, Clone, Copy, PartialEq, Eq, Structural)]
pub enum Environment {
    Sandbox,
    Production,
}

/// The base URL of each environment.
pub open spec fn spec_base_url(env: Environment) -> Seq<char> {
    match env {
        Environment::Sandbox => "https://sbx.kra.go.ke"@,
        Environment::Production => "https://api.kra.go.ke"@,
    }
}

impl Environment {
    pub fn base_url(&self) -> (url: &'static str)
        ensures
            url@ == spec_base_url(*self),
    {
        match self {
            Environment::Sandbox => "https://sbx.kra.go.ke",
            Environment::Production => "https://api.kra.go.ke",
        }
    }
}

/// The HTTP method of a request.
#[derive(Debug, Clone, Copy, PartialEq, Eq, Structural)]
pub enum HttpMethod {
    Get,
    Post,
}

/// How a request authenticates itself.
#[derive(Debug, Clone)]
pub enum Credentials {
    /// `Authorization: Bearer <token>`.
    Bearer(String),
    /// `Authorization: Basic`, with the client id and secret.
    Basic { username: String, password: String },
}

/// The model of `Credentials`.
pub enum CredentialsView {
    Bearer(Seq<char>),
    Basic { username: Seq<char>, password: Seq<char> },
}

impl View for Credentials {
    type V = CredentialsView;

    open spec fn view(&self) -> CredentialsView {
        match self {
            Credentials::Bearer(t) => CredentialsView::Bearer(t@),
            Credentials::Basic { username, password } => CredentialsView::Basic {
                username: username@,
                password: password@,
            },
        }
    }
}

/// A request ready to be sent: method, full URL, credentials, extra headers
/// in order, and the JSON body text if the request carries one.
#[derive(Debug, Clone)]
pub struct ApiRequest {
    pub method: HttpMethod,
    pub url: String,
    pub credentials: Credentials,
    pub headers: Vec<(String, String)>,
    pub body: Option<String>,
}

/// The model of an `ApiRequest`.
pub struct RequestView {
    pub method: HttpMethod,
    pub url: Seq<char>,
    pub credentials: CredentialsView,
    pub headers: Seq<(Seq<char>, Seq<char>)>,
    pub body: Option<Seq<char>>,
}

/// The characters of each header name and value.
pub open spec fn headers_view(hs: Seq<(String, String)>) -> Seq<(Seq<char>, Seq<char>)> {
    hs.map_values(|h: (String, String)| (h.0@, h.1@))
}

impl View for ApiRequest {
    type V = RequestView;

    open spec fn view(&self) -> RequestView {
        RequestView {
            method: self.method,
            url: self.url@,
            credentials: self.credentials@,
            headers: headers_view(self.headers@),
            body: match self.body {
                Some(b) => Some(b@),
                None => None,
            },
        }
    }
}

/// The model of a prepared request or of the error that stopped it.
pub open spec fn request_result(r: Result<ApiRequest, GavaConnectError>) -> Result<RequestView, ErrorView> {
    match r {
        Ok(req) => Ok(req@),
        Err(e) => Err(e@),
    }
}

/// The bearer token state of a client.
#[derive(Debug, Clone)]
pub(crate) struct TokenState {
    pub access_token: Option<String>,
}

/// The main SDK client: the environment, the client credentials and the
/// bearer token obtained by authentication.  It is a plain value: a clone
/// holds its own copy of the token, and storing a token in one clone does not
/// change another.  Sharing one token between handles is left to whoever
/// holds the client, for example behind a lock.
#[derive(Debug, Clone)]
pub struct GavaConnectClient {
    /// The active environment (Sandbox or Production).
    pub env: Environment,
    client_id: String,
    client_secret: String,
    token: TokenState,
}

/// The model of a client.
pub struct ClientView {
    pub env: Environment,
    pub client_id: Seq<char>,
    pub client_secret: Seq<char>,
    pub access_token: Option<Seq<char>>,
}

impl View for GavaConnectClient {
    type V = ClientView;

    closed spec fn view(&self) -> ClientView {
        ClientView {
            env: self.env,
            client_id: self.client_id@,
            client_secret: self.client_secret@,
            access_token: match self.token.access_token {
                Some(t) => Some(t@),
                None => None,
            },
        }
    }
}

/// The full URL of a path in an environment.
pub open spec fn spec_url(env: Environment, path: Seq<char>) -> Seq<char> {
    spec_base_url(env) + path
}

/// The token used for authenticated requests, or `NotAuthenticated`.
pub open spec fn spec_bearer_token(c: ClientView) -> Result<Seq<char>, ErrorView> {
    match c.access_token {
        Some(t) => Ok(t),
        None => Err(ErrorView::NotAuthenticated),
    }
}

/// The header that every JSON request carries.
pub open spec fn json_content_type() -> (Seq<char>, Seq<char>) {
    ("Content-Type"@, "application/json"@)
}

/// An authenticated POST to `path` with the given extra headers, or the
/// error when the client holds no token.
pub open spec fn spec_post_with_headers(
    c: ClientView,
    path: Seq<char>,
    headers: Seq<(Seq<char>, Seq<char>)>,
) -> Result<RequestView, ErrorView> {
    match spec_bearer_token(c) {
        Ok(t) => Ok(
            RequestView {
                method: HttpMethod::Post,
                url: spec_url(c.env, path),
                credentials: CredentialsView::Bearer(t),
                headers,
                body: None,
            },
        ),
        Err(e) => Err(e),
    }
}

/// An authenticated JSON POST to `path`, without a body.
pub open spec fn spec_post(c: ClientView, path: Seq<char>) -> Result<RequestView, ErrorView> {
    spec_post_with_headers(c, path, seq![json_content_type()])
}

/// A prepared request with `body` as its JSON body.
pub open spec fn with_body(r: Result<RequestView, ErrorView>, body: Seq<char>) -> Result<
    RequestView,
    ErrorView,
> {
    match r {
        Ok(req) => Ok(RequestView { body: Some(body), ..req }),
        Err(e) => Err(e),
    }
}

/// An authenticated JSON POST to `path` carrying `body`.
pub open spec fn spec_post_json(c: ClientView, path: Seq<char>, body: Seq<char>) -> Result<
    RequestView,
    ErrorView,
> {
    with_body(spec_post(c, path), body)
}

/// The path of the token endpoint, with its query.
pub open spec fn token_path() -> Seq<char> {
    "/v1/token/generate?grant_type=client_credentials"@
}

/// The token request: a GET with the client credentials as Basic auth.
pub open spec fn spec_auth_request(c: ClientView) -> RequestView {
    RequestView {
        method: HttpMethod::Get,
        url: spec_url(c.env, token_path()),
        credentials: CredentialsView::Basic { username: c.client_id, password: c.client_secret },
        headers: seq![],
        body: None,
    }
}

impl GavaConnectClient {
    /// Create a new client targeting the given environment.
    pub fn new(env: Environment, client_id: &str, client_secret: &str) -> (r: Self)
        ensures
            r@ == (ClientView {
                env,
                client_id: client_id@,
                client_secret: client_secret@,
                access_token: None,
            }),
    {
        GavaConnectClient {
            env,
            client_id: client_id.to_string(),
            client_secret: client_secret.to_string(),
            token: TokenState { access_token: None },
        }
    }

    /// Convenience constructor for the sandbox environment.
    pub fn sandbox(client_id: &str, client_secret: &str) -> (r: Self)
        ensures
            r@ == (ClientView {
                env: Environment::Sandbox,
                client_id: client_id@,
                client_secret: client_secret@,
                access_token: None,
            }),
    {
        Self::new(Environment::Sandbox, client_id, client_secret)
    }

    /// Convenience constructor for the production environment.
    pub fn production(client_id: &str, client_secret: &str) -> (r: Self)
        ensures
            r@ == (ClientView {
                env: Environment::Production,
                client_id: client_id@,
                client_secret: client_secret@,
                access_token: None,
            }),
    {
        Self::new(Environment::Production, client_id, client_secret)
    }

    /// Full URL for a path segment, e.g. `/checker/v1/pin`.
    pub fn url(&self, path: &str) -> (r: String)
        ensures
            r@ == spec_url(self@.env, path@),
    {
        let mut r = self.env.base_url().to_string();
        r.append(path);
        r
    }

    /// The current bearer token, or `NotAuthenticated`.
    pub fn bearer_token(&self) -> (r: Result<String, GavaConnectError>)
        ensures
            match r {
                Ok(t) => spec_bearer_token(self@) == Ok::<Seq<char>, ErrorView>(t@),
                Err(e) => spec_bearer_token(self@) == Err::<Seq<char>, ErrorView>(e@),
            },
    {
        match &self.token.access_token {
            Some(t) => Ok(t.clone()),
            None => Err(GavaConnectError::NotAuthenticated),
        }
    }

    /// Stores a bearer token for subsequent requests, replacing any earlier one.
    pub fn store_token(&mut self, access_token: String)
        ensures
            final(self)@ == (ClientView { access_token: Some(access_token@), ..old(self)@ }),
    {
        self.token = TokenState { access_token: Some(access_token) };
    }

    /// Builds an authenticated POST with the given extra headers.
    pub(crate) fn post_with_headers(&self, path: &str, headers: Vec<(String, String)>) -> (r: Result<
        ApiRequest,
        GavaConnectError,
    >)
        ensures
            request_result(r) == spec_post_with_headers(self@, path@, headers_view(headers@)),
    {
        let token = match self.bearer_token() {
            Ok(t) => t,
            Err(e) => {
                return Err(e);
            },
        };
        Ok(
            ApiRequest {
                method: HttpMethod::Post,
                url: self.url(path),
                credentials: Credentials::Bearer(token),
                headers,
                body: None,
            },
        )
    }

    /// Builds an authenticated JSON POST request, without a body.
    pub fn post(&self, path: &str) -> (r: Result<ApiRequest, GavaConnectError>)
        ensures
            request_result(r) == spec_post(self@, path@),
    {
        let mut headers: Vec<(String, String)> = Vec::new();
        headers.push(content_type_header());
        proof {
            assert(headers_view(headers@) =~= seq![json_content_type()]);
        }
        self.post_with_headers(path, headers)
    }

    /// Builds an authenticated JSON POST request carrying `body`.
    pub fn post_json(&self, path: &str, body: String) -> (r: Result<ApiRequest, GavaConnectError>)
        ensures
            request_result(r) == spec_post_json(self@, path@, body@),
    {
        match self.post(path) {
            Ok(req) => Ok(ApiRequest { body: Some(body), ..req }),
            Err(e) => Err(e),
        }
    }

    /// The token request of the client-credentials flow.
    pub fn auth_request(&self) -> (r: ApiRequest)
        ensures
            r@ == spec_auth_request(self@),
    {
        proof {
            reveal_strlit("/v1/token/generate?grant_type=client_credentials");
        }
        let headers: Vec<(String, String)> = Vec::new();
        assert(headers_view(headers@) =~= Seq::<(Seq<char>, Seq<char>)>::empty());
        ApiRequest {
            method: HttpMethod::Get,
            url: self.url("/v1/token/generate?grant_type=client_credentials"),
            credentials: Credentials::Basic {
                username: self.client_id.clone(),
                password: self.client_secret.clone(),
            },
            headers,
            body: None,
        }
    }
}

/// The `Content-Type: application/json` header.
pub fn content_type_header() -> (r: (String, String))
    ensures
        (r.0@, r.1@) == json_content_type(),
{
    ("Content-Type".to_string(), "application/json".to_string())
}


/// A token, once stored, is the one every later authenticated request
/// carries; storing another token replaces it.
pub proof fn law_stored_token_is_used(
    c: ClientView,
    t1: Seq<char>,
    t2: Seq<char>,
    path: Seq<char>,
    headers: Seq<(Seq<char>, Seq<char>)>,
)
    ensures
        spec_bearer_token(ClientView { access_token: Some(t1), ..c }) == Ok::<Seq<char>, ErrorView>(t1),
        spec_post_with_headers(ClientView { access_token: Some(t1), ..c }, path, headers) matches Ok(
            req,
        ) && req.credentials == CredentialsView::Bearer(t1),
        (ClientView { access_token: Some(t2), ..ClientView { access_token: Some(t1), ..c } }) == (
        ClientView { access_token: Some(t2), ..c }),
{
}

/// A client without a token prepares no authenticated request: every one is
/// refused with `NotAuthenticated`, whatever its path, headers or body.
pub proof fn law_unauthenticated_requests_refused(
    c: ClientView,
    path: Seq<char>,
    headers: Seq<(Seq<char>, Seq<char>)>,
    body: Seq<char>,
)
    requires
        c.access_token is None,
    ensures
        spec_post_with_headers(c, path, headers) == Err::<RequestView, ErrorView>(
            ErrorView::NotAuthenticated,
        ),
        spec_post_json(c, path, body) == Err::<RequestView, ErrorView>(ErrorView::NotAuthenticated),
{
}

/// An authenticated JSON POST goes to the environment's base URL followed by
/// the path, declares a JSON content type, and carries exactly the given body.
pub proof fn law_post_json_shape(c: ClientView, path: Seq<char>, body: Seq<char>)
    requires
        c.access_token is Some,
    ensures
        spec_post_json(c, path, body) matches Ok(req) && req.method == HttpMethod::Post && req.url
            == spec_base_url(c.env) + path && req.credentials == CredentialsView::Bearer(
            c.access_token->0,
        ) && req.headers == seq![("Content-Type"@, "application/json"@)] && req.body == Some(body),
{
}

/// The token request of a client is a GET to its own environment's token
/// endpoint, authenticated with its own client id and secret as Basic
/// credentials, with no extra header and no body; it needs no token.
pub proof fn law_auth_request_targets_own_environment(c: ClientView)
    ensures
        spec_auth_request(c).method == HttpMethod::Get,
        spec_auth_request(c).url == spec_base_url(c.env)
            + "/v1/token/generate?grant_type=client_credentials"@,
        spec_auth_request(c).credentials == (CredentialsView::Basic {
            username: c.client_id,
            password: c.client_secret,
        }),
        spec_auth_request(c).headers.len() == 0,
        spec_auth_request(c).body is None,
        c.env == Environment::Sandbox ==> spec_auth_request(c).url
            == "https://sbx.kra.go.ke"@ + "/v1/token/generate?grant_type=client_credentials"@,
        c.env == Environment::Production ==> spec_auth_request(c).url
            == "https://api.kra.go.ke"@ + "/v1/token/generate?grant_type=client_credentials"@,
{
}

/// The two environments never share a URL: the sandbox is served from
/// `sbx.kra.go.ke` and production from `api.kra.go.ke`, both over HTTPS.
pub proof fn law_environments_distinct(path: Seq<char>)
    ensures
        spec_url(Environment::Sandbox, path) == "https://sbx.kra.go.ke"@ + path,
        spec_url(Environment::Production, path) == "https://api.kra.go.ke"@ + path,
        spec_url(Environment::Sandbox, path) != spec_url(Environment::Production, path),
{
    reveal_strlit("https://sbx.kra.go.ke");
    reveal_strlit("https://api.kra.go.ke");
    assert(spec_url(Environment::Sandbox, path)[8] != spec_url(Environment::Production, path)[8]);
}

} // verus!
