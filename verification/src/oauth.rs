//! The OAuth handshake with an identity provider.
//!
//! A handshake leaves the application for the provider and comes back with a
//! `code` and the `state` nonce that it left with. The nonce is checked
//! against the one kept in persistent storage before anything is sent to the
//! backend; only then is the code exchanged for a credential.

use vstd::prelude::*;
use crate::error::ClientError;
use crate::http::{
    is_success, json_content, request_headers, Header, Method, Request, RequestView, Response,
};
use crate::json::{
    json_model, json_parse, json_quoted, parse_value, quoted, text_member, value_get, Json,
};
use crate::storage::{LocalStorage, ACCESS_TOKEN_KEY};
use crate::store::{TokenStore, TokenStoreView};
use crate::text::{optional_text, same_text, standard_base64, to_standard_base64};
use crate::token::Token;

verus! {

/// The storage key of the nonce of a handshake with Google.
pub const GOOGLE_STATE_KEY: &'static str = "google_oauth_state";

/// The storage key of the nonce of a handshake with GitHub.
pub const GITHUB_STATE_KEY: &'static str = "github_oauth_state";

/// The backend's endpoint that takes a Google identity token.
pub const GOOGLE_EXCHANGE_PATH: &'static str = "/api/auth/google-auth/";

/// The backend's endpoint that takes a GitHub authorization code.
pub const GITHUB_EXCHANGE_PATH: &'static str = "/api/auth/github-auth/";

/// The route that an authenticated user lands on.
pub const LANDING_PATH: &'static str = "/main";

/// The identity providers that the client knows.
#[derive(Debug, Clone, Copy, PartialEq, Eq, Structural)]
pub enum Provider {
    Google,
    Github,
}

impl Provider {
    /// The storage key under which the provider's nonce is kept.
    pub open spec fn state_key_text(self) -> Seq<char> {
        match self {
            Provider::Google => GOOGLE_STATE_KEY@,
            Provider::Github => GITHUB_STATE_KEY@,
        }
    }

    /// The backend's endpoint for the provider.
    pub open spec fn exchange_path_text(self) -> Seq<char> {
        match self {
            Provider::Google => GOOGLE_EXCHANGE_PATH@,
            Provider::Github => GITHUB_EXCHANGE_PATH@,
        }
    }

    /// The storage key under which the provider's nonce is kept.
    pub fn state_key(self) -> (key: &'static str)
        ensures
            key@ == self.state_key_text(),
    {
        match self {
            Provider::Google => GOOGLE_STATE_KEY,
            Provider::Github => GITHUB_STATE_KEY,
        }
    }

    /// The backend's endpoint for the provider.
    pub fn exchange_path(self) -> (path: &'static str)
        ensures
            path@ == self.exchange_path_text(),
    {
        match self {
            Provider::Google => GOOGLE_EXCHANGE_PATH,
            Provider::Github => GITHUB_EXCHANGE_PATH,
        }
    }
}

/// What the build configures for one provider. GitHub uses the first three
/// fields only.
#[derive(Debug, Clone, PartialEq, Eq)]
pub struct ProviderConfig {
    /// The provider's authorization endpoint.
    pub authorize_url: String,
    pub client_id: String,
    pub redirect_uri: String,
    pub scope: String,
    /// The provider's token endpoint.
    pub token_url: String,
    pub client_secret: String,
}

/// The mathematical value of a [`ProviderConfig`].
pub struct ProviderConfigView {
    pub authorize_url: Seq<char>,
    pub client_id: Seq<char>,
    pub redirect_uri: Seq<char>,
    pub scope: Seq<char>,
    pub token_url: Seq<char>,
    pub client_secret: Seq<char>,
}

impl View for ProviderConfig {
    type V = ProviderConfigView;

    open spec fn view(&self) -> ProviderConfigView {
        ProviderConfigView {
            authorize_url: self.authorize_url@,
            client_id: self.client_id@,
            redirect_uri: self.redirect_uri@,
            scope: self.scope@,
            token_url: self.token_url@,
            client_secret: self.client_secret@,
        }
    }
}

/// A full-page navigation to a provider: the endpoint, and the query
/// parameters in order, not yet encoded.
#[derive(Debug, Clone, PartialEq, Eq)]
pub struct Redirect {
    pub url: String,
    pub params: Vec<(String, String)>,
}

/// The mathematical value of a [`Redirect`].
pub struct RedirectView {
    pub url: Seq<char>,
    pub params: Seq<(Seq<char>, Seq<char>)>,
}

impl View for Redirect {
    type V = RedirectView;

    open spec fn view(&self) -> RedirectView {
        RedirectView {
            url: self.url@,
            params: self.params@.map_values(|pair: (String, String)| (pair.0@, pair.1@)),
        }
    }
}

/// The query parameters of the navigation to a provider's authorization
/// endpoint. `state` carries the nonce.
pub open spec fn authorization_params(
    provider: Provider,
    config: ProviderConfigView,
    nonce: Seq<char>,
) -> Seq<(Seq<char>, Seq<char>)> {
    match provider {
        Provider::Google => seq![
            ("client_id"@, config.client_id),
            ("scope"@, config.scope),
            ("redirect_uri"@, config.redirect_uri),
            ("response_type"@, "code"@),
            ("access_type"@, "offline"@),
            ("state"@, nonce),
        ],
        Provider::Github => seq![
            ("client_id"@, config.client_id),
            ("redirect_uri"@, config.redirect_uri),
            ("response_type"@, "code"@),
            ("state"@, nonce),
        ],
    }
}

/// The token store after a handshake was started: the nonce is kept under the
/// provider's key, and no credential is left in memory or in storage.
pub open spec fn store_after_init(
    store: TokenStoreView,
    provider: Provider,
    nonce: Seq<char>,
) -> TokenStoreView {
    TokenStoreView {
        memory: None,
        persisted: store.persisted.insert(provider.state_key_text(), nonce).remove(
            ACCESS_TOKEN_KEY@,
        ),
    }
}

/// Whether a callback is accepted: it carries both a `code` and a `state`,
/// a nonce is kept for the provider, and `state` is that nonce exactly.
pub open spec fn callback_accepted(
    persisted: Map<Seq<char>, Seq<char>>,
    provider: Provider,
    code: Option<Seq<char>>,
    state: Option<Seq<char>>,
) -> bool {
    &&& code is Some
    &&& state is Some
    &&& persisted.contains_key(provider.state_key_text())
    &&& persisted[provider.state_key_text()] == state->0
}

/// Checks the parameters of a callback against the nonce kept in `storage`.
/// Gives the authorization code where the callback is accepted, and
/// [`ClientError::HandshakeRejected`] otherwise.
pub fn validate_callback(
    provider: Provider,
    code: Option<String>,
    state: Option<String>,
    storage: &LocalStorage,
) -> (checked: Result<String, ClientError>)
    ensures
        callback_accepted(storage@, provider, optional_text(code), optional_text(state))
            ==> checked == Ok::<String, ClientError>(code->0),
        !callback_accepted(storage@, provider, optional_text(code), optional_text(state))
            ==> checked == Err::<String, ClientError>(ClientError::HandshakeRejected),
{
    match (code, state, storage.get_item(provider.state_key())) {
        (Some(code), Some(state), Some(nonce)) => {
            if same_text(state.as_str(), nonce.as_str()) {
                Ok(code)
            } else {
                Err(ClientError::HandshakeRejected)
            }
        },
        _ => Err(ClientError::HandshakeRejected),
    }
}

/// The parameters of the navigation to a provider, with `nonce` as `state`.
pub fn authorization_redirect(
    provider: Provider,
    config: &ProviderConfig,
    nonce: &str,
) -> (redirect: Redirect)
    ensures
        redirect@ == (RedirectView {
            url: config.authorize_url@,
            params: authorization_params(provider, config@, nonce@),
        }),
{
    let mut params: Vec<(String, String)> = Vec::new();
    params.push(("client_id".to_owned(), config.client_id.clone()));
    match provider {
        Provider::Google => {
            params.push(("scope".to_owned(), config.scope.clone()));
            params.push(("redirect_uri".to_owned(), config.redirect_uri.clone()));
            params.push(("response_type".to_owned(), "code".to_owned()));
            params.push(("access_type".to_owned(), "offline".to_owned()));
        },
        Provider::Github => {
            params.push(("redirect_uri".to_owned(), config.redirect_uri.clone()));
            params.push(("response_type".to_owned(), "code".to_owned()));
        },
    }
    params.push(("state".to_owned(), nonce.to_owned()));
    let redirect = Redirect { url: config.authorize_url.clone(), params };
    assert(redirect@.params =~= authorization_params(provider, config@, nonce@));
    redirect
}

/// The JSON body that hands a credential of the provider to the backend: the
/// authorization code for GitHub, the identity token for Google.
pub open spec fn exchange_body_text(provider: Provider, credential: Seq<char>) -> Seq<char> {
    match provider {
        Provider::Google => "{\"id_token\":"@ + json_quoted(credential) + "}"@,
        Provider::Github => "{\"code\":"@ + json_quoted(credential) + "}"@,
    }
}

/// The form that asks Google's token endpoint to turn an authorization code
/// into an identity token.
pub open spec fn identity_form_text(code: Seq<char>, config: ProviderConfigView) -> Seq<char> {
    "code="@ + code + "&redirect_uri="@ + config.redirect_uri + "&client_id="@ + config.client_id
        + "&client_secret="@ + config.client_secret + "&grant_type=authorization_code"@
}

/// The request that hands a credential of the provider to the backend.
pub open spec fn backend_exchange(
    provider: Provider,
    base: Seq<char>,
    credential: Seq<char>,
    bearer: Option<Seq<char>>,
) -> RequestView {
    RequestView {
        method: Method::Post,
        url: base + provider.exchange_path_text(),
        headers: request_headers(json_content(), bearer),
        body: Some(exchange_body_text(provider, credential)),
    }
}

/// The request that asks Google's token endpoint for an identity token.
pub open spec fn identity_exchange(code: Seq<char>, config: ProviderConfigView) -> RequestView {
    RequestView {
        method: Method::Post,
        url: config.token_url,
        headers: seq![("content-type"@, "application/x-www-form-urlencoded"@)],
        body: Some(identity_form_text(code, config)),
    }
}

/// The first request of the exchange, once the callback is accepted. GitHub's
/// code goes straight to the backend; Google's goes to Google first.
pub open spec fn first_exchange(
    provider: Provider,
    config: ProviderConfigView,
    base: Seq<char>,
    code: Seq<char>,
    bearer: Option<Seq<char>>,
) -> RequestView {
    match provider {
        Provider::Google => identity_exchange(code, config),
        Provider::Github => backend_exchange(provider, base, code, bearer),
    }
}

/// The identity token in the answer of Google's token endpoint: the text
/// under `id_token`, rewritten to the standard base64 alphabet.
pub open spec fn identity_token_of(document: Json) -> Option<Seq<char>> {
    match document.text_member("id_token"@) {
        Some(token) => Some(standard_base64(token)),
        None => None,
    }
}

/// The credential in the backend's answer to an exchange: the text under
/// `access` for GitHub, under `user` and then `access` for Google.
pub open spec fn access_token_of(provider: Provider, document: Json) -> Option<Seq<char>> {
    match provider {
        Provider::Github => document.text_member("access"@),
        Provider::Google => match document.member("user"@) {
            Some(user) => user.text_member("access"@),
            None => None,
        },
    }
}

/// The JSON body that hands a credential of the provider to the backend.
pub fn exchange_body(provider: Provider, credential: &str) -> (body: String)
    ensures
        body@ == exchange_body_text(provider, credential@),
{
    let mut body = match provider {
        Provider::Google => "{\"id_token\":".to_owned(),
        Provider::Github => "{\"code\":".to_owned(),
    };
    let literal = quoted(credential);
    body.append(literal.as_str());
    body.append("}");
    body
}

/// The form that asks Google's token endpoint for an identity token.
pub fn identity_form(code: &str, config: &ProviderConfig) -> (form: String)
    ensures
        form@ == identity_form_text(code@, config@),
{
    let mut form = "code=".to_owned();
    form.append(code);
    form.append("&redirect_uri=");
    form.append(config.redirect_uri.as_str());
    form.append("&client_id=");
    form.append(config.client_id.as_str());
    form.append("&client_secret=");
    form.append(config.client_secret.as_str());
    form.append("&grant_type=authorization_code");
    form
}

/// The request that hands a credential of the provider to the backend at
/// `base`, with the bearer credential that `store` holds, if any.
pub fn backend_exchange_request(
    provider: Provider,
    base: &str,
    credential: &str,
    store: &TokenStore,
) -> (request: Request)
    ensures
        request@ == backend_exchange(provider, base@, credential@, store@.current()),
{
    let bearer = store.get();
    let body = exchange_body(provider, credential);
    Request::post(base, provider.exchange_path(), body, bearer.as_ref())
}

/// The request that asks Google's token endpoint for an identity token. It
/// carries no bearer credential.
pub fn identity_exchange_request(code: &str, config: &ProviderConfig) -> (request: Request)
    ensures
        request@ == identity_exchange(code@, config@),
{
    let content_type = Header {
        name: "content-type".to_owned(),
        value: "application/x-www-form-urlencoded".to_owned(),
    };
    Request::new(
        Method::Post,
        config.token_url.clone(),
        content_type,
        Some(identity_form(code, config)),
        None,
    )
}

/// The identity token in a parsed answer of Google's token endpoint.
pub fn identity_token_in(document: &serde_json::Value) -> (token: Option<String>)
    ensures
        optional_text(token) == identity_token_of(json_model(*document)),
{
    match text_member(document, "id_token") {
        Some(raw) => Some(to_standard_base64(raw.as_str())),
        None => None,
    }
}

/// The credential in the backend's parsed answer to an exchange.
pub fn access_token_in(provider: Provider, document: &serde_json::Value) -> (token: Option<Token>)
    ensures
        match token {
            Some(held) => access_token_of(provider, json_model(*document)) == Some(held@),
            None => access_token_of(provider, json_model(*document)) is None,
        },
{
    let found = match provider {
        Provider::Github => text_member(document, "access"),
        Provider::Google => match value_get(document, "user") {
            Some(user) => text_member(user, "access"),
            None => None,
        },
    };
    match found {
        Some(text) => Some(Token::new(text)),
        None => None,
    }
}

/// The identity token in the body of an answer of Google's token endpoint;
/// `None` where the body is not JSON or holds no such token.
pub fn identity_token(body: &str) -> (token: Option<String>)
    ensures
        optional_text(token) == match json_parse(body@) {
            Some(document) => identity_token_of(document),
            None => None,
        },
{
    match parse_value(body) {
        Ok(document) => identity_token_in(&document),
        Err(_) => None,
    }
}

/// The credential in the body of the backend's answer to an exchange; `None`
/// where the body is not JSON or holds no credential.
pub fn access_token(provider: Provider, body: &str) -> (token: Option<Token>)
    ensures
        match token {
            Some(held) => json_parse(body@) is Some && access_token_of(
                provider,
                json_parse(body@)->0,
            ) == Some(held@),
            None => json_parse(body@) is None || access_token_of(provider, json_parse(body@)->0)
                is None,
        },
{
    match parse_value(body) {
        Ok(document) => access_token_in(provider, &document),
        Err(_) => None,
    }
}

/// Where a handshake stands.
#[derive(Debug, Clone, Copy, PartialEq, Eq, Structural)]
pub enum Phase {
    /// Nothing has happened yet.
    Idle,
    /// The nonce is stored and the browser is about to leave for the provider.
    Redirecting,
    /// The browser is at the provider.
    AwaitingCallback,
    /// The provider sent the browser back; the parameters are being checked.
    Validating,
    /// The callback was accepted; an answer to the exchange is awaited.
    Exchanging,
    /// The credential is installed.
    Authenticated,
    /// The callback lacked a parameter or carried the wrong nonce.
    Rejected,
    /// The exchange did not yield a credential.
    ExchangeFailed,
}

/// One handshake with one provider.
#[derive(Debug)]
pub struct Handshake {
    provider: Provider,
    phase: Phase,
    code: Option<String>,
    state: Option<String>,
    identity_pending: bool,
}

/// The mathematical value of a [`Handshake`].
pub struct HandshakeView {
    pub provider: Provider,
    pub phase: Phase,
    /// The `code` parameter of the callback, while it is being checked.
    pub code: Option<Seq<char>>,
    /// The `state` parameter of the callback, while it is being checked.
    pub state: Option<Seq<char>>,
    /// Whether the answer that is awaited is the identity provider's, not yet
    /// the backend's.
    pub identity_pending: bool,
}

impl HandshakeView {
    /// A handshake in `phase` that holds no callback parameters.
    pub open spec fn at(provider: Provider, phase: Phase) -> HandshakeView {
        HandshakeView { provider, phase, code: None, state: None, identity_pending: false }
    }
}

impl View for Handshake {
    type V = HandshakeView;

    closed spec fn view(&self) -> HandshakeView {
        HandshakeView {
            provider: self.provider,
            phase: self.phase,
            code: optional_text(self.code),
            state: optional_text(self.state),
            identity_pending: self.identity_pending,
        }
    }
}

/// What a handshake asks of the program around it after an answer came in.
#[derive(Debug)]
pub enum Progress {
    /// Send this request and hand the answer back.
    Send(Request),
    /// The credential is installed: go to the landing route.
    Authenticated { token: Token, landing: String },
}

/// What an answer to the exchange amounts to.
pub enum Reply {
    /// No answer arrived.
    Lost,
    /// An answer with a status outside 200..=299.
    Refused { reason: Seq<char> },
    /// A successful answer whose body does not hold what is expected.
    Malformed,
    /// The identity provider's answer, with the identity token.
    Identity { token: Seq<char> },
    /// The backend's answer, with the credential.
    Access { token: Seq<char> },
}

/// Reads an answer to the exchange.
pub open spec fn read_reply(
    provider: Provider,
    identity_pending: bool,
    reply: Option<Response>,
) -> Reply {
    match reply {
        None => Reply::Lost,
        Some(response) => if !is_success(response.status) {
            Reply::Refused { reason: response.status_text@ }
        } else {
            match json_parse(response.body@) {
                None => Reply::Malformed,
                Some(document) => if identity_pending {
                    match identity_token_of(document) {
                        Some(token) => Reply::Identity { token },
                        None => Reply::Malformed,
                    }
                } else {
                    match access_token_of(provider, document) {
                        Some(token) => Reply::Access { token },
                        None => Reply::Malformed,
                    }
                },
            }
        },
    }
}

impl Handshake {
    /// A handshake that has not started.
    pub fn new(provider: Provider) -> (handshake: Self)
        ensures
            handshake@ == HandshakeView::at(provider, Phase::Idle),
    {
        Handshake { provider, phase: Phase::Idle, code: None, state: None, identity_pending: false }
    }

    /// The handshake as the callback route finds it: the page was loaded
    /// anew while the browser was at the provider.
    pub fn returning(provider: Provider) -> (handshake: Self)
        ensures
            handshake@ == HandshakeView::at(provider, Phase::AwaitingCallback),
    {
        Handshake {
            provider,
            phase: Phase::AwaitingCallback,
            code: None,
            state: None,
            identity_pending: false,
        }
    }

    /// The provider of the handshake.
    pub fn provider(&self) -> (provider: Provider)
        ensures
            provider == self@.provider,
    {
        self.provider
    }

    /// Where the handshake stands.
    pub fn phase(&self) -> (phase: Phase)
        ensures
            phase == self@.phase,
    {
        self.phase
    }

    /// Starts the handshake, or starts it over: stores `nonce` under the
    /// provider's key, clears the token store, and gives the navigation to the
    /// provider's authorization endpoint. `nonce` is to be a fresh random
    /// string.
    pub fn init(
        &mut self,
        config: &ProviderConfig,
        nonce: &str,
        store: &mut TokenStore,
    ) -> (redirect: Redirect)
        ensures
            final(self)@ == HandshakeView::at(old(self)@.provider, Phase::Redirecting),
            final(store)@ == store_after_init(old(store)@, old(self)@.provider, nonce@),
            redirect@ == (RedirectView {
                url: config.authorize_url@,
                params: authorization_params(old(self)@.provider, config@, nonce@),
            }),
    {
        store.set_entry(self.provider.state_key(), nonce);
        store.clear();
        self.phase = Phase::Redirecting;
        self.code = None;
        self.state = None;
        self.identity_pending = false;
        authorization_redirect(self.provider, config, nonce)
    }

    /// The browser left for the provider.
    pub fn depart(&mut self)
        requires
            old(self)@.phase == Phase::Redirecting,
        ensures
            final(self)@ == HandshakeView::at(old(self)@.provider, Phase::AwaitingCallback),
    {
        self.phase = Phase::AwaitingCallback;
        self.code = None;
        self.state = None;
        self.identity_pending = false;
    }

    /// The provider sent the browser back with these query parameters.
    pub fn on_callback(&mut self, code: Option<String>, state: Option<String>)
        requires
            old(self)@.phase == Phase::AwaitingCallback,
        ensures
            final(self)@ == (HandshakeView {
                provider: old(self)@.provider,
                phase: Phase::Validating,
                code: optional_text(code),
                state: optional_text(state),
                identity_pending: false,
            }),
    {
        self.phase = Phase::Validating;
        self.code = code;
        self.state = state;
        self.identity_pending = false;
    }

    /// Checks the callback against the nonce that `store` keeps. Where it is
    /// accepted, gives the first request of the exchange; where it is not, the
    /// handshake is rejected and nothing is to be sent.
    pub fn validate(
        &mut self,
        config: &ProviderConfig,
        base: &str,
        store: &TokenStore,
    ) -> (outcome: Result<Request, ClientError>)
        requires
            old(self)@.phase == Phase::Validating,
        ensures
            callback_accepted(
                store@.persisted,
                old(self)@.provider,
                old(self)@.code,
                old(self)@.state,
            ) ==> {
                &&& outcome is Ok
                &&& outcome->Ok_0@ == first_exchange(
                    old(self)@.provider,
                    config@,
                    base@,
                    old(self)@.code->0,
                    store@.current(),
                )
                &&& final(self)@ == (HandshakeView {
                    identity_pending: old(self)@.provider == Provider::Google,
                    ..HandshakeView::at(old(self)@.provider, Phase::Exchanging)
                })
            },
            !callback_accepted(
                store@.persisted,
                old(self)@.provider,
                old(self)@.code,
                old(self)@.state,
            ) ==> {
                &&& outcome == Err::<Request, ClientError>(ClientError::HandshakeRejected)
                &&& final(self)@ == HandshakeView::at(old(self)@.provider, Phase::Rejected)
            },
    {
        let code = self.code.take();
        let state = self.state.take();
        match validate_callback(self.provider, code, state, store.storage()) {
            Ok(code) => {
                self.phase = Phase::Exchanging;
                match self.provider {
                    Provider::Google => {
                        self.identity_pending = true;
                        Ok(identity_exchange_request(code.as_str(), config))
                    },
                    Provider::Github => {
                        self.identity_pending = false;
                        Ok(backend_exchange_request(self.provider, base, code.as_str(), store))
                    },
                }
            },
            Err(error) => {
                self.phase = Phase::Rejected;
                self.identity_pending = false;
                Err(error)
            },
        }
    }

    /// Takes the answer to the request sent last, or `None` where no answer
    /// arrived. The identity provider's answer leads to the request for the
    /// backend; the backend's answer installs the credential in `store`. Any
    /// failure ends the handshake and leaves `store` as it was.
    pub fn on_reply(
        &mut self,
        reply: Option<Response>,
        base: &str,
        store: &mut TokenStore,
    ) -> (outcome: Result<Progress, ClientError>)
        requires
            old(self)@.phase == Phase::Exchanging,
        ensures
            match read_reply(old(self)@.provider, old(self)@.identity_pending, reply) {
                Reply::Lost => {
                    &&& outcome matches Err(ClientError::Network)
                    &&& final(self)@ == HandshakeView::at(
                        old(self)@.provider,
                        Phase::ExchangeFailed,
                    )
                    &&& final(store)@ == old(store)@
                },
                Reply::Refused { reason } => {
                    &&& outcome matches Err(ClientError::ExchangeFailed { reason: told })
                    &&& told@ == reason
                    &&& final(self)@ == HandshakeView::at(
                        old(self)@.provider,
                        Phase::ExchangeFailed,
                    )
                    &&& final(store)@ == old(store)@
                },
                Reply::Malformed => {
                    &&& outcome matches Err(ClientError::Decode)
                    &&& final(self)@ == HandshakeView::at(
                        old(self)@.provider,
                        Phase::ExchangeFailed,
                    )
                    &&& final(store)@ == old(store)@
                },
                Reply::Identity { token } => {
                    &&& outcome matches Ok(Progress::Send(request))
                    &&& request@ == backend_exchange(
                        old(self)@.provider,
                        base@,
                        token,
                        old(store)@.current(),
                    )
                    &&& final(self)@ == HandshakeView::at(old(self)@.provider, Phase::Exchanging)
                    &&& final(store)@ == old(store)@
                },
                Reply::Access { token } => {
                    &&& outcome matches Ok(Progress::Authenticated { token: held, landing })
                    &&& held@ == token
                    &&& landing@ == LANDING_PATH@
                    &&& final(self)@ == HandshakeView::at(
                        old(self)@.provider,
                        Phase::Authenticated,
                    )
                    &&& final(store)@ == old(store)@.after_set(token)
                },
            },
    {
        let identity_pending = self.identity_pending;
        self.identity_pending = false;
        self.code = None;
        self.state = None;
        self.phase = Phase::ExchangeFailed;
        let response = match reply {
            Some(response) => response,
            None => {
                return Err(ClientError::Network);
            },
        };
        if !response.ok() {
            return Err(ClientError::ExchangeFailed { reason: response.status_text });
        }
        if identity_pending {
            match identity_token(response.body.as_str()) {
                Some(token) => {
                    self.phase = Phase::Exchanging;
                    Ok(
                        Progress::Send(
                            backend_exchange_request(self.provider, base, token.as_str(), store),
                        ),
                    )
                },
                None => Err(ClientError::Decode),
            }
        } else {
            match access_token(self.provider, response.body.as_str()) {
                Some(token) => {
                    self.phase = Phase::Authenticated;
                    store.set(token.clone());
                    Ok(Progress::Authenticated { token, landing: LANDING_PATH.to_owned() })
                },
                None => Err(ClientError::Decode),
            }
        }
    }
}

/// No provider keeps its nonce under the key of the credential, and the two
/// providers keep theirs under different keys.
pub proof fn lemma_storage_keys_differ()
    ensures
        Provider::Google.state_key_text() != ACCESS_TOKEN_KEY@,
        Provider::Github.state_key_text() != ACCESS_TOKEN_KEY@,
        Provider::Google.state_key_text() != Provider::Github.state_key_text(),
{
    reveal_strlit("google_oauth_state");
    reveal_strlit("github_oauth_state");
    reveal_strlit("access_token");
    assert(GOOGLE_STATE_KEY@[1] == 'o');
    assert(GITHUB_STATE_KEY@[1] == 'i');
}

/// Starting a handshake leaves the store without a credential, so that the
/// requests that follow go out unauthenticated.
pub proof fn lemma_init_clears_the_token(
    store: TokenStoreView,
    provider: Provider,
    nonce: Seq<char>,
)
    ensures
        store_after_init(store, provider, nonce).current() is None,
{
}

/// A callback that brings back the nonce of the handshake started last,
/// together with a code, is accepted.
pub proof fn lemma_own_nonce_is_accepted(
    store: TokenStoreView,
    provider: Provider,
    nonce: Seq<char>,
    code: Seq<char>,
)
    ensures
        callback_accepted(
            store_after_init(store, provider, nonce).persisted,
            provider,
            Some(code),
            Some(nonce),
        ),
{
    lemma_storage_keys_differ();
}

/// Starting the handshake over before the callback of the earlier start
/// arrives invalidates that earlier start: a callback that carries the earlier
/// nonce is rejected, whatever else it carries. The last start wins.
pub proof fn lemma_restart_invalidates_earlier_nonce(
    store: TokenStoreView,
    provider: Provider,
    earlier: Seq<char>,
    later: Seq<char>,
    code: Option<Seq<char>>,
)
    requires
        earlier != later,
    ensures
        !callback_accepted(
            store_after_init(store_after_init(store, provider, earlier), provider, later).persisted,
            provider,
            code,
            Some(earlier),
        ),
{
    lemma_storage_keys_differ();
}

/// A handshake with one provider does not touch the nonce of the other: a
/// callback for `provider` is judged after a start with another provider as
/// it was before.
pub proof fn lemma_providers_do_not_interfere(
    store: TokenStoreView,
    provider: Provider,
    other: Provider,
    nonce: Seq<char>,
    code: Option<Seq<char>>,
    state: Option<Seq<char>>,
)
    requires
        provider != other,
    ensures
        callback_accepted(store_after_init(store, other, nonce).persisted, provider, code, state)
            == callback_accepted(store.persisted, provider, code, state),
{
    lemma_storage_keys_differ();
}

} // verus!
