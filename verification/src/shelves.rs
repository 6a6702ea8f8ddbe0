//! The user's shelves: listing them, and putting books on them and taking
//! books off.

use vstd::prelude::*;
use crate::endpoints::{add_book_path, numbered, numbered_text, remove_book_path, SHELVES_PATH};
use crate::error::ClientError;
use crate::http::{
    is_success, json_content, request_headers, token_text, Method, Request, RequestView, Response,
};
use crate::pagination::{Pager, PagerView};
use crate::token::Token;

verus! {

/// A shelf, as the backend describes it.
#[derive(Debug, Clone, Default, PartialEq, Eq)]
pub struct Shelf {
    pub id: usize,
    pub user: usize,
    pub name: String,
    pub is_default: bool,
    pub shelf_type: String,
    pub created_at: String,
    pub updated_at: String,
}

/// The JSON body that names a book: `{"book_id":N}`.
pub open spec fn book_body_text(book_id: nat) -> Seq<char> {
    numbered_text("{\"book_id\":"@, book_id, "}"@)
}

/// The request that puts a book on a shelf or takes it off: a `POST` to the
/// shelf's endpoint for that change, with the book's number as the body.
pub open spec fn shelf_change(
    base: Seq<char>,
    shelf_id: nat,
    action: Seq<char>,
    book_id: nat,
    bearer: Option<Seq<char>>,
) -> RequestView {
    RequestView {
        method: Method::Post,
        url: base + numbered_text(SHELVES_PATH@, shelf_id, action),
        headers: request_headers(json_content(), bearer),
        body: Some(book_body_text(book_id)),
    }
}

/// The fetch of all the user's shelves, page by page, over at most `limit`
/// pages.
pub fn get_shelves(limit: usize) -> (pager: Pager<Shelf>)
    ensures
        pager@ == PagerView::<Shelf>::start(SHELVES_PATH@, limit as nat),
{
    Pager::new(SHELVES_PATH, limit)
}

/// The JSON body that names a book.
fn book_body(book_id: usize) -> (body: String)
    ensures
        body@ == book_body_text(book_id as nat),
{
    numbered("{\"book_id\":", book_id, "}")
}

/// The request that puts the book `ids.0` on the shelf `ids.1`.
pub fn put_book_in_shelf(ids: (usize, usize), base: &str, bearer: Option<&Token>) -> (request:
    Request)
    ensures
        request@ == shelf_change(
            base@,
            ids.1 as nat,
            "/add_book/"@,
            ids.0 as nat,
            token_text(bearer),
        ),
{
    let path = add_book_path(ids.1);
    Request::post(base, path.as_str(), book_body(ids.0), bearer)
}

/// The request that takes the book `ids.0` off the shelf `ids.1`.
pub fn remove_book_from_shelf(ids: (usize, usize), base: &str, bearer: Option<&Token>) -> (request:
    Request)
    ensures
        request@ == shelf_change(
            base@,
            ids.1 as nat,
            "/remove_book/"@,
            ids.0 as nat,
            token_text(bearer),
        ),
{
    let path = remove_book_path(ids.1);
    Request::post(base, path.as_str(), book_body(ids.0), bearer)
}

/// Reads the answer to a change of a shelf: a status of success means that
/// the change was made; any other status is handed on with the body as a
/// [`ClientError::Http`], and a missing answer as [`ClientError::Network`].
pub fn read_shelf_change(reply: Option<Response>) -> (outcome: Result<(), ClientError>)
    ensures
        match reply {
            None => outcome == Err::<(), ClientError>(ClientError::Network),
            Some(response) => if is_success(response.status) {
                outcome is Ok
            } else {
                outcome == Err::<(), ClientError>(
                    ClientError::Http { status: response.status, body: response.body },
                )
            },
        },
{
    match reply {
        None => Err(ClientError::Network),
        Some(response) => match response.error_for_status() {
            Ok(_) => Ok(()),
            Err(error) => Err(error),
        },
    }
}

} // verus!
