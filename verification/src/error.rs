//! What can go wrong with a slate.
use vstd::prelude::*;

verus! {

/// An error of the library. The texts of the last six come from the crates that
/// do the cryptography and from the rules of the chain.
#[derive(Debug)]
pub enum Error {
    /// The slate has no transaction where one is needed.
    SlateTransactionRequired,
    /// The version of a serialized slate cannot be told.
    SlateVersionParse,
    /// A serialized slate cannot be read.
    SlateDeser,
    /// A slate has a version that is not supported.
    SlateVersion(u16),
    /// The fee of the transaction is not acceptable.
    Fee(String),
    /// A participant's message is not signed by its sender.
    Signature(String),
    /// A key or a commitment cannot be used.
    Secp(String),
    /// A signature cannot be made or does not hold.
    LibTx(String),
    /// The keychain refuses.
    Keychain(String),
    /// The commitments of a transaction cannot be summed.
    Committed(String),
    /// The transaction is not valid.
    Transaction(String),
    /// A token type is not valid.
    Token(String),
}

/// An error with its text as a sequence of characters.
pub enum ErrorView {
    SlateTransactionRequired,
    SlateVersionParse,
    SlateDeser,
    SlateVersion(u16),
    Fee(Seq<char>),
    Signature(Seq<char>),
    Secp(Seq<char>),
    LibTx(Seq<char>),
    Keychain(Seq<char>),
    Committed(Seq<char>),
    Transaction(Seq<char>),
    Token(Seq<char>),
}

impl View for Error {
    type V = ErrorView;

    open spec fn view(&self) -> ErrorView {
        match self {
            Error::SlateTransactionRequired => ErrorView::SlateTransactionRequired,
            Error::SlateVersionParse => ErrorView::SlateVersionParse,
            Error::SlateDeser => ErrorView::SlateDeser,
            Error::SlateVersion(v) => ErrorView::SlateVersion(*v),
            Error::Fee(text) => ErrorView::Fee(text@),
            Error::Signature(text) => ErrorView::Signature(text@),
            Error::Secp(text) => ErrorView::Secp(text@),
            Error::LibTx(text) => ErrorView::LibTx(text@),
            Error::Keychain(text) => ErrorView::Keychain(text@),
            Error::Committed(text) => ErrorView::Committed(text@),
            Error::Transaction(text) => ErrorView::Transaction(text@),
            Error::Token(text) => ErrorView::Token(text@),
        }
    }
}

/// A result with its error by its view.
pub open spec fn outcome<T>(r: Result<T, Error>) -> Result<T, ErrorView> {
    match r {
        Ok(v) => Ok(v),
        Err(e) => Err(e@),
    }
}

} // verus!
