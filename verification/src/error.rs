//! What can go wrong in a call of the client.

use vstd::prelude::*;

verus! {

/// The failures that the client hands to its caller. Nothing is retried.
#[derive(Debug, Clone, PartialEq, Eq)]
pub enum ClientError {
    /// No response arrived: the request could not be sent or answered.
    Network,
    /// A response arrived, but its body has not the expected shape.
    Decode,
    /// A response with a status outside 200..=299, for a caller that inspects it.
    Http { status: u16, body: String },
    /// The callback of an OAuth handshake lacks a parameter or carries the
    /// wrong nonce. The backend was not contacted.
    HandshakeRejected,
    /// The backend or the identity provider refused the exchange.
    ExchangeFailed { reason: String },
}

/// The mathematical value of a [`ClientError`].
pub enum ClientErrorView {
    Network,
    Decode,
    Http { status: u16, body: Seq<char> },
    HandshakeRejected,
    ExchangeFailed { reason: Seq<char> },
}

impl View for ClientError {
    type V = ClientErrorView;

    open spec fn view(&self) -> ClientErrorView {
        match self {
            ClientError::Network => ClientErrorView::Network,
            ClientError::Decode => ClientErrorView::Decode,
            ClientError::Http { status, body } => ClientErrorView::Http {
                status: *status,
                body: body@,
            },
            ClientError::HandshakeRejected => ClientErrorView::HandshakeRejected,
            ClientError::ExchangeFailed { reason } => ClientErrorView::ExchangeFailed {
                reason: reason@,
            },
        }
    }
}

} // verus!
