//! Requests against the backend and the responses that come back.
//!
//! The library builds each request as plain data and reads each response as
//! plain data; sending is left to the program around it.

use vstd::prelude::*;
use crate::error::ClientError;
use crate::store::{TokenStore, TokenStoreView};
use crate::text::{joined, same_text};
use crate::token::Token;

verus! {

/// The verbs that the client uses.
#[derive(Debug, Clone, Copy, PartialEq, Eq, Structural)]
pub enum Method {
    Get,
    Post,
    Delete,
}

/// One header of a request.
#[derive(Debug, Clone, PartialEq, Eq)]
pub struct Header {
    pub name: String,
    pub value: String,
}

/// A request, ready to be sent.
#[derive(Debug, Clone, PartialEq, Eq)]
pub struct Request {
    pub method: Method,
    pub url: String,
    pub headers: Vec<Header>,
    pub body: Option<String>,
}

/// The mathematical value of a [`Request`].
pub struct RequestView {
    pub method: Method,
    pub url: Seq<char>,
    pub headers: Seq<(Seq<char>, Seq<char>)>,
    pub body: Option<Seq<char>>,
}

impl View for Header {
    type V = (Seq<char>, Seq<char>);

    open spec fn view(&self) -> (Seq<char>, Seq<char>) {
        (self.name@, self.value@)
    }
}

impl View for Request {
    type V = RequestView;

    open spec fn view(&self) -> RequestView {
        RequestView {
            method: self.method,
            url: self.url@,
            headers: self.headers@.map_values(|header: Header| header@),
            body: match self.body {
                Some(text) => Some(text@),
                None => None,
            },
        }
    }
}

/// The text of an optional credential.
pub open spec fn token_text(token: Option<&Token>) -> Option<Seq<char>> {
    match token {
        Some(held) => Some(held@),
        None => None,
    }
}

/// The value of the `Authorization` header for a credential.
pub open spec fn bearer_value(token: Seq<char>) -> Seq<char> {
    "Bearer "@ + token
}

/// The headers of a request: its content type, then the bearer credential
/// where one is available.
pub open spec fn request_headers(
    content_type: (Seq<char>, Seq<char>),
    bearer: Option<Seq<char>>,
) -> Seq<(Seq<char>, Seq<char>)> {
    match bearer {
        Some(token) => seq![content_type, ("Authorization"@, bearer_value(token))],
        None => seq![content_type],
    }
}

/// The value of the first header called `name`, if there is one.
pub open spec fn header_value(headers: Seq<(Seq<char>, Seq<char>)>, name: Seq<char>) -> Option<
    Seq<char>,
>
    decreases headers.len(),
{
    if headers.len() == 0 {
        None
    } else if headers.first().0 == name {
        Some(headers.first().1)
    } else {
        header_value(headers.drop_first(), name)
    }
}

/// The content type of every request that goes to the backend.
pub open spec fn json_content() -> (Seq<char>, Seq<char>) {
    ("Content-Type"@, "application/json"@)
}

/// The credential that a call uses: the one placed in the ambient request
/// context, if any, before the one that the store holds.
pub open spec fn effective_token(
    ambient: Option<Seq<char>>,
    stored: Option<Seq<char>>,
) -> Option<Seq<char>> {
    match ambient {
        Some(token) => Some(token),
        None => stored,
    }
}

/// Picks the credential for one call: `ambient` takes precedence over what
/// `store` holds.
pub fn authorization(ambient: Option<&Token>, store: &TokenStore) -> (token: Option<Token>)
    ensures
        match token {
            Some(held) => effective_token(token_text(ambient), store@.current()) == Some(held@),
            None => effective_token(token_text(ambient), store@.current()) is None,
        },
{
    match ambient {
        Some(token) => Some(token.clone()),
        None => store.get(),
    }
}

impl Request {
    /// A request with the given content type header and, where `bearer` holds
    /// a credential, an `Authorization: Bearer` header after it.
    pub fn new(
        method: Method,
        url: String,
        content_type: Header,
        body: Option<String>,
        bearer: Option<&Token>,
    ) -> (request: Request)
        ensures
            request.method == method,
            request.url == url,
            request.body == body,
            request@.headers == request_headers(content_type@, token_text(bearer)),
    {
        let ghost content = content_type@;
        let mut headers: Vec<Header> = Vec::new();
        headers.push(content_type);
        match bearer {
            Some(token) => {
                let value = joined("Bearer ", token.as_str());
                headers.push(Header { name: "Authorization".to_owned(), value });
                assert(headers@.map_values(|header: Header| header@) =~= seq![
                    content,
                    ("Authorization"@, bearer_value(token@)),
                ]);
            },
            None => {
                assert(headers@.map_values(|header: Header| header@) =~= seq![content]);
            },
        }
        Request { method, url, headers, body }
    }

    /// A JSON request to `path` on the backend at `base`.
    pub fn to_backend(
        method: Method,
        base: &str,
        path: &str,
        body: Option<String>,
        bearer: Option<&Token>,
    ) -> (request: Request)
        ensures
            request.method == method,
            request.url@ == base@ + path@,
            request.body == body,
            request@.headers == request_headers(json_content(), token_text(bearer)),
    {
        let content_type = Header {
            name: "Content-Type".to_owned(),
            value: "application/json".to_owned(),
        };
        Request::new(method, joined(base, path), content_type, body, bearer)
    }

    /// `GET base+path`, with no body.
    pub fn get(base: &str, path: &str, bearer: Option<&Token>) -> (request: Request)
        ensures
            request.method == Method::Get,
            request.url@ == base@ + path@,
            request.body is None,
            request@.headers == request_headers(json_content(), token_text(bearer)),
    {
        Request::to_backend(Method::Get, base, path, None, bearer)
    }

    /// `POST base+path` with a JSON-encoded body.
    pub fn post(base: &str, path: &str, body: String, bearer: Option<&Token>) -> (request: Request)
        ensures
            request.method == Method::Post,
            request.url@ == base@ + path@,
            request.body == Some(body),
            request@.headers == request_headers(json_content(), token_text(bearer)),
    {
        Request::to_backend(Method::Post, base, path, Some(body), bearer)
    }

    /// `DELETE base+path`, with no body.
    pub fn delete(base: &str, path: &str, bearer: Option<&Token>) -> (request: Request)
        ensures
            request.method == Method::Delete,
            request.url@ == base@ + path@,
            request.body is None,
            request@.headers == request_headers(json_content(), token_text(bearer)),
    {
        Request::to_backend(Method::Delete, base, path, None, bearer)
    }

    /// The value of the first header called `name`, if there is one.
    pub fn header(&self, name: &str) -> (value: Option<&str>)
        ensures
            match value {
                Some(text) => header_value(self@.headers, name@) == Some(text@),
                None => header_value(self@.headers, name@) is None,
            },
    {
        let ghost headers = self@.headers;
        assert(headers.skip(0) =~= headers);
        let mut i: usize = 0;
        while i < self.headers.len()
            invariant
                i <= self.headers.len(),
                headers == self@.headers,
                headers.len() == self.headers.len(),
                header_value(headers, name@) == header_value(headers.skip(i as int), name@),
            decreases self.headers.len() - i,
        {
            let ghost rest = headers.skip(i as int);
            assert(rest.drop_first() =~= headers.skip(i + 1));
            if same_text(self.headers[i].name.as_str(), name) {
                return Some(self.headers[i].value.as_str());
            }
            i += 1;
        }
        None
    }
}

/// A response as it came back: the status and the body, not yet interpreted.
#[derive(Debug, Clone, PartialEq, Eq)]
pub struct Response {
    pub status: u16,
    pub status_text: String,
    pub body: String,
}

/// Whether a status is one of success, 200 to 299.
pub open spec fn is_success(status: u16) -> bool {
    200 <= status <= 299
}

impl Response {
    /// Whether the status is one of success, 200 to 299.
    pub fn ok(&self) -> (success: bool)
        ensures
            success == is_success(self.status),
    {
        200 <= self.status && self.status <= 299
    }

    /// The response itself where its status is one of success; otherwise the
    /// status and the body as an [`ClientError::Http`].
    pub fn error_for_status(self) -> (checked: Result<Response, ClientError>)
        ensures
            is_success(self.status) ==> checked == Ok::<Response, ClientError>(self),
            !is_success(self.status) ==> checked == Err::<Response, ClientError>(
                ClientError::Http { status: self.status, body: self.body },
            ),
    {
        if self.ok() {
            Ok(self)
        } else {
            Err(ClientError::Http { status: self.status, body: self.body })
        }
    }
}

/// The outcome of a `POST`: the raw response, whatever its status, so that the
/// caller can branch on it; [`ClientError::Network`] where none arrived.
pub fn post_outcome(reply: Option<Response>) -> (outcome: Result<Response, ClientError>)
    ensures
        match reply {
            Some(response) => outcome == Ok::<Response, ClientError>(response),
            None => outcome == Err::<Response, ClientError>(ClientError::Network),
        },
{
    match reply {
        Some(response) => Ok(response),
        None => Err(ClientError::Network),
    }
}

/// The outcome of a `GET`: the body that is to be decoded, whatever the
/// status; [`ClientError::Network`] where no response arrived.
pub fn get_outcome(reply: Option<Response>) -> (outcome: Result<String, ClientError>)
    ensures
        match reply {
            Some(response) => outcome == Ok::<String, ClientError>(response.body),
            None => outcome == Err::<String, ClientError>(ClientError::Network),
        },
{
    match reply {
        Some(response) => Ok(response.body),
        None => Err(ClientError::Network),
    }
}

/// The outcome of a `DELETE`: the body is discarded, and only a missing
/// response is a failure.
pub fn delete_outcome(reply: Option<Response>) -> (outcome: Result<(), ClientError>)
    ensures
        outcome is Ok <==> reply is Some,
        outcome is Err ==> outcome == Err::<(), ClientError>(ClientError::Network),
{
    match reply {
        Some(_) => Ok(()),
        None => Err(ClientError::Network),
    }
}

/// The `Authorization` header follows the credential: a request built
/// without one carries no such header, and a request built with one carries
/// it as a bearer credential.
pub proof fn lemma_authorization_follows_the_token(
    content_type: (Seq<char>, Seq<char>),
    bearer: Option<Seq<char>>,
)
    requires
        content_type.0 != "Authorization"@,
    ensures
        header_value(request_headers(content_type, bearer), "Authorization"@) == match bearer {
            Some(token) => Some(bearer_value(token)),
            None => None,
        },
{
    let headers = request_headers(content_type, bearer);
    let rest = headers.drop_first();
    assert(header_value(headers, "Authorization"@) == header_value(rest, "Authorization"@));
}

/// The content type of the backend's requests is not the `Authorization`
/// header.
pub proof fn lemma_content_type_is_not_authorization()
    ensures
        json_content().0 != "Authorization"@,
{
    reveal_strlit("Content-Type");
    reveal_strlit("Authorization");
    assert("Content-Type"@.len() == 12);
    assert("Authorization"@.len() == 13);
}

/// After the store was cleared, a request to the backend that takes its
/// credential from the store carries no `Authorization` header.
pub proof fn lemma_cleared_store_sends_no_authorization(store: TokenStoreView)
    ensures
        effective_token(None, store.after_clear().current()) is None,
        header_value(
            request_headers(json_content(), effective_token(None, store.after_clear().current())),
            "Authorization"@,
        ) is None,
{
    lemma_content_type_is_not_authorization();
    lemma_authorization_follows_the_token(json_content(), None);
}

/// After a credential was set, a request to the backend that takes its
/// credential from the store carries it as a bearer credential, also after a
/// reload.
pub proof fn lemma_set_token_is_sent(store: TokenStoreView, token: Seq<char>)
    ensures
        header_value(
            request_headers(json_content(), effective_token(None, store.after_set(token).current())),
            "Authorization"@,
        ) == Some(bearer_value(token)),
        header_value(
            request_headers(
                json_content(),
                effective_token(None, store.after_set(token).after_reload().current()),
            ),
            "Authorization"@,
        ) == Some(bearer_value(token)),
{
    lemma_content_type_is_not_authorization();
    lemma_authorization_follows_the_token(json_content(), Some(token));
}

} // verus!
