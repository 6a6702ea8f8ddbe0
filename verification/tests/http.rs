use bookup_client::error::ClientError;
use bookup_client::http::{
    authorization, delete_outcome, get_outcome, post_outcome, Header, Method, Request, Response,
};
use bookup_client::storage::LocalStorage;
use bookup_client::store::TokenStore;
use bookup_client::token::Token;

fn response(status: u16, status_text: &str, body: &str) -> Response {
    Response {
        status,
        status_text: status_text.to_string(),
        body: body.to_string(),
    }
}

#[test]
fn get_request_is_built_from_base_and_path() {
    let request = Request::get("http://localhost:8000", "/api/book/books/", None);
    assert_eq!(request.method, Method::Get);
    assert_eq!(request.url, "http://localhost:8000/api/book/books/");
    assert_eq!(request.body, None);
    assert_eq!(
        request.headers,
        vec![Header {
            name: "Content-Type".to_string(),
            value: "application/json".to_string()
        }]
    );
}

#[test]
fn post_request_carries_body_and_bearer() {
    let token = Token::new("tok123".to_string());
    let request = Request::post(
        "http://localhost:8000",
        "/api/auth/login/",
        "{\"email\":\"a@b.c\"}".to_string(),
        Some(&token),
    );
    assert_eq!(request.method, Method::Post);
    assert_eq!(request.url, "http://localhost:8000/api/auth/login/");
    assert_eq!(request.body, Some("{\"email\":\"a@b.c\"}".to_string()));
    assert_eq!(
        request.headers,
        vec![
            Header {
                name: "Content-Type".to_string(),
                value: "application/json".to_string()
            },
            Header {
                name: "Authorization".to_string(),
                value: "Bearer tok123".to_string()
            },
        ]
    );
}

#[test]
fn delete_request_has_no_body() {
    let token = Token::new("t".to_string());
    let request = Request::delete(
        "http://localhost:8000",
        "/api/review/reviews/3/reviews/7/like/",
        Some(&token),
    );
    assert_eq!(request.method, Method::Delete);
    assert_eq!(
        request.url,
        "http://localhost:8000/api/review/reviews/3/reviews/7/like/"
    );
    assert_eq!(request.body, None);
    assert_eq!(request.header("Authorization"), Some("Bearer t"));
    assert_eq!(request.header("Content-Type"), Some("application/json"));
    assert_eq!(request.header("Accept"), None);
}

#[test]
fn request_new_takes_any_content_type() {
    let request = Request::new(
        Method::Post,
        "https://provider.example/token".to_string(),
        Header {
            name: "content-type".to_string(),
            value: "application/x-www-form-urlencoded".to_string(),
        },
        Some("a=b".to_string()),
        None,
    );
    assert_eq!(request.url, "https://provider.example/token");
    assert_eq!(request.headers.len(), 1);
    assert_eq!(
        request.header("content-type"),
        Some("application/x-www-form-urlencoded")
    );
    assert_eq!(request.body, Some("a=b".to_string()));
}

#[test]
fn ambient_token_takes_precedence() {
    let mut store = TokenStore::new(LocalStorage::new());
    store.set(Token::new("stored".to_string()));
    let ambient = Token::new("fresh".to_string());
    assert_eq!(
        authorization(Some(&ambient), &store),
        Some(Token::new("fresh".to_string()))
    );
    assert_eq!(
        authorization(None, &store),
        Some(Token::new("stored".to_string()))
    );
}

#[test]
fn ambient_token_is_used_with_an_empty_store() {
    let store = TokenStore::new(LocalStorage::new());
    let ambient = Token::new("fresh".to_string());
    assert_eq!(
        authorization(Some(&ambient), &store),
        Some(Token::new("fresh".to_string()))
    );
    assert_eq!(authorization(None, &store), None);
}

#[test]
fn ok_is_the_range_200_to_299() {
    assert!(!response(199, "", "").ok());
    assert!(response(200, "OK", "").ok());
    assert!(response(208, "", "").ok());
    assert!(response(299, "", "").ok());
    assert!(!response(300, "", "").ok());
    assert!(!response(404, "Not Found", "").ok());
    assert!(!response(0, "", "").ok());
}

#[test]
fn error_for_status_passes_success_through() {
    let checked = response(201, "Created", "{}").error_for_status();
    assert_eq!(checked, Ok(response(201, "Created", "{}")));
}

#[test]
fn error_for_status_surfaces_http_error() {
    let checked = response(404, "Not Found", "no such shelf").error_for_status();
    assert_eq!(
        checked,
        Err(ClientError::Http {
            status: 404,
            body: "no such shelf".to_string()
        })
    );
}

#[test]
fn post_outcome_hands_the_raw_response_on() {
    assert_eq!(
        post_outcome(Some(response(404, "Not Found", "x"))),
        Ok(response(404, "Not Found", "x"))
    );
    assert_eq!(post_outcome(None), Err(ClientError::Network));
}

#[test]
fn get_outcome_hands_the_body_on() {
    assert_eq!(
        get_outcome(Some(response(200, "OK", "[1,2]"))),
        Ok("[1,2]".to_string())
    );
    assert_eq!(get_outcome(None), Err(ClientError::Network));
}

#[test]
fn delete_outcome_discards_the_body() {
    assert_eq!(delete_outcome(Some(response(204, "", "ignored"))), Ok(()));
    assert_eq!(delete_outcome(Some(response(500, "", "ignored"))), Ok(()));
    assert_eq!(delete_outcome(None), Err(ClientError::Network));
}
