use bookup_client::endpoints::{
    add_book_path, book_path, comments_path, decimal, like_path, numbered, remove_book_path,
    reviews_path, shelf_books_path, BOOKS_PATH, GENRES_PATH, SHELVES_PATH, STATS_PATH,
};
use bookup_client::error::ClientError;
use bookup_client::http::{Method, Response};
use bookup_client::shelves::{
    get_shelves, put_book_in_shelf, read_shelf_change, remove_book_from_shelf, Shelf,
};
use bookup_client::token::Token;

#[test]
fn decimal_matches_the_standard_formatting() {
    for n in [0usize, 1, 9, 10, 11, 99, 100, 101, 1234567890, usize::MAX - 1, usize::MAX] {
        assert_eq!(decimal(n), format!("{}", n));
    }
    assert_eq!(decimal(0), "0");
    assert_eq!(decimal(7), "7");
    assert_eq!(decimal(4096), "4096");
}

#[test]
fn numbered_puts_the_number_between() {
    assert_eq!(numbered("a", 12, "b"), "a12b");
    assert_eq!(numbered("", 0, ""), "0");
}

#[test]
fn fixed_paths() {
    assert_eq!(BOOKS_PATH, "/api/book/books/");
    assert_eq!(GENRES_PATH, "/api/book/genres/");
    assert_eq!(SHELVES_PATH, "/api/shelf/shelves/");
    assert_eq!(STATS_PATH, "/api/stats/stats/");
}

#[test]
fn numbered_paths() {
    assert_eq!(book_path(17), "/api/book/books/17/");
    assert_eq!(shelf_books_path(3), "/api/shelf/shelves/3/books/");
    assert_eq!(add_book_path(3), "/api/shelf/shelves/3/add_book/");
    assert_eq!(remove_book_path(40), "/api/shelf/shelves/40/remove_book/");
    assert_eq!(reviews_path(5), "/api/review/reviews/5/reviews/");
    assert_eq!(comments_path(8), "/api/review/reviews/8/comments/");
    assert_eq!(like_path(5, 120), "/api/review/reviews/5/reviews/120/like/");
    assert_eq!(like_path(0, 0), "/api/review/reviews/0/reviews/0/like/");
}

#[test]
fn put_book_in_shelf_builds_the_request() {
    let token = Token::new("tok123".to_string());
    let request = put_book_in_shelf((12, 3), "http://localhost:8000", Some(&token));
    assert_eq!(request.method, Method::Post);
    assert_eq!(request.url, "http://localhost:8000/api/shelf/shelves/3/add_book/");
    assert_eq!(request.body, Some("{\"book_id\":12}".to_string()));
    assert_eq!(request.header("Content-Type"), Some("application/json"));
    assert_eq!(request.header("Authorization"), Some("Bearer tok123"));
    let parsed: serde_json::Value = serde_json::from_str(request.body.as_ref().unwrap()).unwrap();
    assert_eq!(parsed.get("book_id").and_then(|id| id.as_u64()), Some(12));
}

#[test]
fn remove_book_from_shelf_builds_the_request() {
    let request = remove_book_from_shelf((12, 3), "http://localhost:8000", None);
    assert_eq!(request.method, Method::Post);
    assert_eq!(
        request.url,
        "http://localhost:8000/api/shelf/shelves/3/remove_book/"
    );
    assert_eq!(request.body, Some("{\"book_id\":12}".to_string()));
    assert_eq!(request.header("Authorization"), None);
}

#[test]
fn shelf_change_outcomes() {
    let answer = |status: u16, body: &str| Response {
        status,
        status_text: String::new(),
        body: body.to_string(),
    };
    assert_eq!(read_shelf_change(Some(answer(200, "{}"))), Ok(()));
    assert_eq!(read_shelf_change(Some(answer(201, ""))), Ok(()));
    assert_eq!(
        read_shelf_change(Some(answer(400, "already on the shelf"))),
        Err(ClientError::Http {
            status: 400,
            body: "already on the shelf".to_string()
        })
    );
    assert_eq!(read_shelf_change(None), Err(ClientError::Network));
}

#[test]
fn get_shelves_starts_at_the_shelves_endpoint() {
    let mut pager = get_shelves(50);
    assert_eq!(pager.pending(), Some("/api/shelf/shelves/"));
    let first = pager.request("http://localhost:8000", None).unwrap();
    assert_eq!(first.url, "http://localhost:8000/api/shelf/shelves/");
    let shelf = Shelf {
        id: 1,
        user: 2,
        name: "Read".to_string(),
        is_default: true,
        shelf_type: "read".to_string(),
        created_at: "2025-01-01".to_string(),
        updated_at: "2025-01-02".to_string(),
    };
    pager.accept(bookup_client::pagination::Page {
        count: 1,
        next: None,
        previous: None,
        results: vec![shelf.clone()],
    });
    assert!(pager.is_finished());
    assert_eq!(pager.into_items(), vec![shelf]);
    assert_eq!(Shelf::default().name, "");
}
