use bookup_client::http::Method;
use bookup_client::pagination::{Page, Pager};
use bookup_client::token::Token;

fn page(items: Vec<u32>, next: Option<&str>) -> Page<u32> {
    Page {
        count: 5,
        next: next.map(|url| url.to_string()),
        previous: None,
        results: items,
    }
}

#[test]
fn fetch_all_follows_three_pages() {
    let mut backend = vec![
        page(vec![1, 2], Some("http://localhost:8000/api/shelf/shelves/?page=2")),
        page(vec![3, 4], Some("http://localhost:8000/api/shelf/shelves/?page=3")),
        page(vec![5], None),
    ]
    .into_iter();
    let mut pager: Pager<u32> = Pager::new("/api/shelf/shelves/", 100);
    let mut requested = Vec::new();
    while let Some(request) = pager.request("http://localhost:8000", None) {
        requested.push(request.url.clone());
        let answer = backend.next().unwrap();
        assert!(pager.accept(answer));
    }
    assert_eq!(
        requested,
        vec![
            "http://localhost:8000/api/shelf/shelves/".to_string(),
            "http://localhost:8000/api/shelf/shelves/?page=2".to_string(),
            "http://localhost:8000/api/shelf/shelves/?page=3".to_string(),
        ]
    );
    assert_eq!(pager.pages_fetched(), 3);
    assert!(pager.is_finished());
    assert!(!pager.is_truncated());
    assert_eq!(pager.into_items(), vec![1, 2, 3, 4, 5]);
}

#[test]
fn single_page_collection() {
    let mut pager: Pager<u32> = Pager::new("/api/book/genres/", 10);
    assert_eq!(pager.pending(), Some("/api/book/genres/"));
    assert!(!pager.is_finished());
    assert!(pager.accept(page(vec![7, 8, 9], None)));
    assert_eq!(pager.pending(), None);
    assert!(pager.is_finished());
    assert!(!pager.is_truncated());
    assert_eq!(pager.pages_fetched(), 1);
    assert_eq!(pager.into_items(), vec![7, 8, 9]);
}

#[test]
fn empty_page_yields_nothing() {
    let mut pager: Pager<u32> = Pager::new("/api/book/genres/", 10);
    assert!(pager.accept(page(vec![], None)));
    assert!(pager.is_finished());
    assert_eq!(pager.into_items(), Vec::<u32>::new());
}

#[test]
fn cyclic_chain_stops_at_the_limit() {
    let mut pager: Pager<u32> = Pager::new("/loop", 4);
    let mut rounds = 0;
    while pager.pending().is_some() {
        assert!(pager.accept(page(vec![1], Some("http://localhost:8000/loop"))));
        rounds += 1;
        assert!(rounds <= 4);
    }
    assert_eq!(rounds, 4);
    assert_eq!(pager.pages_fetched(), 4);
    assert!(pager.is_finished());
    assert!(pager.is_truncated());
    assert_eq!(pager.into_items(), vec![1, 1, 1, 1]);
}

#[test]
fn limit_of_zero_fetches_nothing() {
    let mut pager: Pager<u32> = Pager::new("/api/book/genres/", 0);
    assert_eq!(pager.pending(), None);
    assert!(pager.request("http://localhost:8000", None).is_none());
    assert!(pager.is_finished());
    assert!(pager.is_truncated());
    assert!(!pager.accept(page(vec![1], None)));
    assert_eq!(pager.pages_fetched(), 0);
    assert_eq!(pager.into_items(), Vec::<u32>::new());
}

#[test]
fn page_without_a_pending_request_is_dropped() {
    let mut pager: Pager<u32> = Pager::new("/api/book/genres/", 10);
    assert!(pager.accept(page(vec![1], None)));
    assert!(!pager.accept(page(vec![2], None)));
    assert_eq!(pager.pages_fetched(), 1);
    assert_eq!(pager.into_items(), vec![1]);
}

#[test]
fn pager_requests_carry_the_bearer() {
    let token = Token::new("tok123".to_string());
    let mut pager: Pager<u32> = Pager::new("/api/shelf/shelves/", 10);
    let first = pager.request("http://b", Some(&token)).unwrap();
    assert_eq!(first.method, Method::Get);
    assert_eq!(first.url, "http://b/api/shelf/shelves/");
    assert_eq!(first.body, None);
    assert_eq!(first.header("Authorization"), Some("Bearer tok123"));
    assert_eq!(first.header("Content-Type"), Some("application/json"));
    pager.accept(page(vec![1], Some("http://elsewhere/page2")));
    let second = pager.request("http://b", Some(&token)).unwrap();
    assert_eq!(second.url, "http://elsewhere/page2");
    assert_eq!(second.header("Authorization"), Some("Bearer tok123"));
    let unauthenticated = pager.request("http://b", None).unwrap();
    assert_eq!(unauthenticated.header("Authorization"), None);
}
