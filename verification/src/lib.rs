//! Verified core of the BookUp web client.
//!
//! The client talks to a REST backend on behalf of a signed-in user. This
//! library holds what the client decides, as plain data in and plain data out:
//!
//! - [`token`] and [`store`]: the bearer credential and where it is kept, over
//!   [`storage`], a model of the browser's local storage;
//! - [`http`]: requests with the `Authorization` header that the credential
//!   calls for, and the reading of responses;
//! - [`pagination`]: following the `next` links of a paginated collection;
//! - [`oauth`]: the handshake with Google or GitHub, from the nonce to the
//!   installed credential;
//! - [`account`] and [`shelves`]: the backend's answers to the account forms
//!   and to changes of a shelf;
//! - [`endpoints`]: the paths of the backend;
//! - [`json`] and [`text`]: what the others need of JSON and of strings.
//!
//! Sending a request, reading the browser's storage and rendering are left to
//! the program around the library.

pub mod account;
pub mod endpoints;
pub mod error;
pub mod http;
pub mod json;
pub mod oauth;
pub mod pagination;
pub mod shelves;
pub mod storage;
pub mod store;
pub mod text;
pub mod token;
