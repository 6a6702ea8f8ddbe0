//! The paths of the backend's endpoints that name a book, a shelf or a
//! review by its number.

use vstd::prelude::*;
use crate::text::push_char;

verus! {

/// The endpoint of the catalog of books.
pub const BOOKS_PATH: &'static str = "/api/book/books/";

/// The endpoint of the genres.
pub const GENRES_PATH: &'static str = "/api/book/genres/";

/// The endpoint of the user's shelves.
pub const SHELVES_PATH: &'static str = "/api/shelf/shelves/";

/// The endpoint of the reading statistics.
pub const STATS_PATH: &'static str = "/api/stats/stats/";

/// The character of a decimal digit.
pub open spec fn digit_char(digit: nat) -> char {
    if digit == 0 {
        '0'
    } else if digit == 1 {
        '1'
    } else if digit == 2 {
        '2'
    } else if digit == 3 {
        '3'
    } else if digit == 4 {
        '4'
    } else if digit == 5 {
        '5'
    } else if digit == 6 {
        '6'
    } else if digit == 7 {
        '7'
    } else if digit == 8 {
        '8'
    } else {
        '9'
    }
}

/// A number in decimal, without leading zeros.
pub open spec fn decimal_text(n: nat) -> Seq<char>
    decreases n,
{
    if n < 10 {
        seq![digit_char(n)]
    } else {
        decimal_text(n / 10).push(digit_char(n % 10))
    }
}

/// The character of a decimal digit.
fn digit(d: usize) -> (c: char)
    requires
        d < 10,
    ensures
        c == digit_char(d as nat),
{
    if d == 0 {
        '0'
    } else if d == 1 {
        '1'
    } else if d == 2 {
        '2'
    } else if d == 3 {
        '3'
    } else if d == 4 {
        '4'
    } else if d == 5 {
        '5'
    } else if d == 6 {
        '6'
    } else if d == 7 {
        '7'
    } else if d == 8 {
        '8'
    } else {
        '9'
    }
}

/// Writes a number in decimal, without leading zeros.
pub fn decimal(n: usize) -> (text: String)
    ensures
        text@ == decimal_text(n as nat),
    decreases n,
{
    let mut text = if n < 10 {
        String::new()
    } else {
        decimal(n / 10)
    };
    push_char(&mut text, digit(n % 10));
    text
}

/// `head`, a number in decimal, and `tail`, one after the other.
pub open spec fn numbered_text(head: Seq<char>, n: nat, tail: Seq<char>) -> Seq<char> {
    head + decimal_text(n) + tail
}

/// `head`, a number in decimal, and `tail`, one after the other.
pub fn numbered(head: &str, n: usize, tail: &str) -> (text: String)
    ensures
        text@ == numbered_text(head@, n as nat, tail@),
{
    let mut text = head.to_owned();
    let number = decimal(n);
    text.append(number.as_str());
    text.append(tail);
    text
}

/// The endpoint of one book: `/api/book/books/{book_id}/`.
pub fn book_path(book_id: usize) -> (path: String)
    ensures
        path@ == numbered_text(BOOKS_PATH@, book_id as nat, "/"@),
{
    numbered(BOOKS_PATH, book_id, "/")
}

/// The endpoint of the books on a shelf: `/api/shelf/shelves/{shelf_id}/books/`.
pub fn shelf_books_path(shelf_id: usize) -> (path: String)
    ensures
        path@ == numbered_text(SHELVES_PATH@, shelf_id as nat, "/books/"@),
{
    numbered(SHELVES_PATH, shelf_id, "/books/")
}

/// The endpoint that puts a book on a shelf:
/// `/api/shelf/shelves/{shelf_id}/add_book/`.
pub fn add_book_path(shelf_id: usize) -> (path: String)
    ensures
        path@ == numbered_text(SHELVES_PATH@, shelf_id as nat, "/add_book/"@),
{
    numbered(SHELVES_PATH, shelf_id, "/add_book/")
}

/// The endpoint that takes a book off a shelf:
/// `/api/shelf/shelves/{shelf_id}/remove_book/`.
pub fn remove_book_path(shelf_id: usize) -> (path: String)
    ensures
        path@ == numbered_text(SHELVES_PATH@, shelf_id as nat, "/remove_book/"@),
{
    numbered(SHELVES_PATH, shelf_id, "/remove_book/")
}

/// The endpoint of the reviews of a book: `/api/review/reviews/{book_id}/reviews/`.
pub fn reviews_path(book_id: usize) -> (path: String)
    ensures
        path@ == numbered_text("/api/review/reviews/"@, book_id as nat, "/reviews/"@),
{
    numbered("/api/review/reviews/", book_id, "/reviews/")
}

/// The endpoint of the comments on a review:
/// `/api/review/reviews/{review_id}/comments/`.
pub fn comments_path(review_id: usize) -> (path: String)
    ensures
        path@ == numbered_text("/api/review/reviews/"@, review_id as nat, "/comments/"@),
{
    numbered("/api/review/reviews/", review_id, "/comments/")
}

/// The endpoint of the like on a review of a book:
/// `/api/review/reviews/{book_id}/reviews/{review_id}/like/`.
pub fn like_path(book_id: usize, review_id: usize) -> (path: String)
    ensures
        path@ == "/api/review/reviews/"@ + decimal_text(book_id as nat) + "/reviews/"@
            + decimal_text(review_id as nat) + "/like/"@,
{
    let mut path = reviews_path(book_id);
    let number = decimal(review_id);
    path.append(number.as_str());
    path.append("/like/");
    path
}

} // verus!
