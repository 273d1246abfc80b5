use vstd::prelude::*;

verus! {

/// What can go wrong while a record is processed.
#[derive(Debug, PartialEq, Eq)]
pub enum Error {
    /// A setting that a gateway needs is not set; holds the setting's name.
    ConfigError(String),
    /// The record carries no body.
    EmptyBody,
    /// The body is not a request; holds the decoder's message.
    DecodeError(String),
    /// A request to create a product lacks its name or its price.
    ValidationError,
    /// The table could not be reached or refused the call; holds its message.
    StoreError(String),
    /// The output queue could not be reached or refused the call; holds its
    /// message.
    QueueError(String),
    /// A stored attribute is not of the kind that a product needs there.
    TypeMismatch,
    /// A stored item lacks an attribute that a product needs; holds the
    /// attribute's name.
    MissingField(String),
}

/// The mathematical model of an [`Error`].
pub enum ErrorView {
    ConfigError(Seq<char>),
    EmptyBody,
    DecodeError(Seq<char>),
    ValidationError,
    StoreError(Seq<char>),
    QueueError(Seq<char>),
    TypeMismatch,
    MissingField(Seq<char>),
}

impl View for Error {
    type V = ErrorView;

    open spec fn view(&self) -> ErrorView {
        match self {
            Error::ConfigError(name) => ErrorView::ConfigError(name@),
            Error::EmptyBody => ErrorView::EmptyBody,
            Error::DecodeError(message) => ErrorView::DecodeError(message@),
            Error::ValidationError => ErrorView::ValidationError,
            Error::StoreError(message) => ErrorView::StoreError(message@),
            Error::QueueError(message) => ErrorView::QueueError(message@),
            Error::TypeMismatch => ErrorView::TypeMismatch,
            Error::MissingField(name) => ErrorView::MissingField(name@),
        }
    }
}

impl Clone for Error {
    fn clone(&self) -> (copy: Error)
        ensures
            copy == *self,
    {
        match self {
            Error::ConfigError(name) => Error::ConfigError(name.clone()),
            Error::EmptyBody => Error::EmptyBody,
            Error::DecodeError(message) => Error::DecodeError(message.clone()),
            Error::ValidationError => Error::ValidationError,
            Error::StoreError(message) => Error::StoreError(message.clone()),
            Error::QueueError(message) => Error::QueueError(message.clone()),
            Error::TypeMismatch => Error::TypeMismatch,
            Error::MissingField(name) => Error::MissingField(name.clone()),
        }
    }
}

impl Error {
    /// Whether the error is fatal for the whole batch: only a missing setting
    /// is; every other error stays with its record.
    pub fn is_fatal(&self) -> (fatal: bool)
        ensures
            fatal == (self@ is ConfigError),
    {
        match self {
            Error::ConfigError(_) => true,
            _ => false,
        }
    }
}

} // verus!
