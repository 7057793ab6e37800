//! What can go wrong, with the text that is shown for it.

use vstd::prelude::*;
use vstd::string::StringExecFns;

verus! {

/// The errors of the ledger and of the node around it.
///
/// The variants that come from another layer carry that layer's own message.
#[derive(Debug)]
pub enum BlockchainError {
    /// A file, socket or clock failed.
    IoError(String),
    /// A JSON text could not be written or read.
    SerdeJsonError(String),
    /// A key could not be generated or was rejected.
    RingError(String),
    /// A WebSocket connection failed.
    WebSocketError(String),
    /// A peer address could not be read.
    InvalidPeerAddress,
    /// A block does not continue the chain.
    BlockchainInvalid,
    /// A transaction was refused.
    TransactionError(String),
    /// No nonce that is left seals the block.
    NonceExhausted,
}

/// The mathematical model of a [`BlockchainError`].
pub enum ErrorView {
    IoError(Seq<char>),
    SerdeJsonError(Seq<char>),
    RingError(Seq<char>),
    WebSocketError(Seq<char>),
    InvalidPeerAddress,
    BlockchainInvalid,
    TransactionError(Seq<char>),
    NonceExhausted,
}

impl View for BlockchainError {
    type V = ErrorView;

    open spec fn view(&self) -> ErrorView {
        match self {
            BlockchainError::IoError(s) => ErrorView::IoError(s@),
            BlockchainError::SerdeJsonError(s) => ErrorView::SerdeJsonError(s@),
            BlockchainError::RingError(s) => ErrorView::RingError(s@),
            BlockchainError::WebSocketError(s) => ErrorView::WebSocketError(s@),
            BlockchainError::InvalidPeerAddress => ErrorView::InvalidPeerAddress,
            BlockchainError::BlockchainInvalid => ErrorView::BlockchainInvalid,
            BlockchainError::TransactionError(s) => ErrorView::TransactionError(s@),
            BlockchainError::NonceExhausted => ErrorView::NonceExhausted,
        }
    }
}

impl ErrorView {
    /// The text that is shown for the error.
    pub open spec fn message(self) -> Seq<char> {
        match self {
            ErrorView::IoError(s) => "IO Error occurred: "@ + s,
            ErrorView::SerdeJsonError(s) => "Serde JSON Error: "@ + s,
            ErrorView::RingError(s) => "Ring Crypto Error: "@ + s,
            ErrorView::WebSocketError(s) => "WebSocket Error: "@ + s,
            ErrorView::InvalidPeerAddress => "Invalid Peer Address"@,
            ErrorView::BlockchainInvalid => "Blockchain Validation Failed"@,
            ErrorView::TransactionError(s) => "Transaction Error: "@ + s,
            ErrorView::NonceExhausted => "Nonce Space Exhausted"@,
        }
    }
}

impl BlockchainError {
    /// The text that is shown for the error.
    pub fn message(&self) -> (r: String)
        ensures
            r@ == self@.message(),
            match self {
                BlockchainError::IoError(s) => r@ == "IO Error occurred: "@ + s@,
                BlockchainError::SerdeJsonError(s) => r@ == "Serde JSON Error: "@ + s@,
                BlockchainError::RingError(s) => r@ == "Ring Crypto Error: "@ + s@,
                BlockchainError::WebSocketError(s) => r@ == "WebSocket Error: "@ + s@,
                BlockchainError::InvalidPeerAddress => r@ == "Invalid Peer Address"@,
                BlockchainError::BlockchainInvalid => r@ == "Blockchain Validation Failed"@,
                BlockchainError::TransactionError(s) => r@ == "Transaction Error: "@ + s@,
                BlockchainError::NonceExhausted => r@ == "Nonce Space Exhausted"@,
            },
    {
        match self {
            BlockchainError::IoError(s) => prefixed("IO Error occurred: ", s),
            BlockchainError::SerdeJsonError(s) => prefixed("Serde JSON Error: ", s),
            BlockchainError::RingError(s) => prefixed("Ring Crypto Error: ", s),
            BlockchainError::WebSocketError(s) => prefixed("WebSocket Error: ", s),
            BlockchainError::InvalidPeerAddress => "Invalid Peer Address".to_owned(),
            BlockchainError::BlockchainInvalid => "Blockchain Validation Failed".to_owned(),
            BlockchainError::TransactionError(s) => prefixed("Transaction Error: ", s),
            BlockchainError::NonceExhausted => "Nonce Space Exhausted".to_owned(),
        }
    }
}

/// `prefix` followed by `rest`.
pub(crate) fn prefixed(prefix: &str, rest: &String) -> (r: String)
    ensures
        r@ == prefix@ + rest@,
{
    let mut text = prefix.to_owned();
    text.append(rest.as_str());
    text
}

} // verus!
