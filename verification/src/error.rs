//! The ways in which resolving a reference or an exchange with the service
//! can fail.

use crate::text::{decimal, decimal_text};
use vstd::prelude::*;

verus! {

/// Why an operation on a paste failed.
#[derive(Debug, Clone, PartialEq, Eq)]
pub enum PasteError {
    /// The text named the service but could not be reduced to an identifier.
    InvalidUrl,
    /// The text had none of the accepted shapes.
    InvalidArguments,
    /// The exchange itself failed; the field describes the cause.
    TransportError(String),
    /// The service answered with a status that is no success.
    RemoteError { status: u16, body: String },
}

/// `PasteError` with its texts as sequences of characters.
pub enum PasteErrorView {
    InvalidUrl,
    InvalidArguments,
    TransportError(Seq<char>),
    RemoteError { status: u16, body: Seq<char> },
}

impl View for PasteError {
    type V = PasteErrorView;

    open spec fn view(&self) -> PasteErrorView {
        match *self {
            PasteError::InvalidUrl => PasteErrorView::InvalidUrl,
            PasteError::InvalidArguments => PasteErrorView::InvalidArguments,
            PasteError::TransportError(cause) => PasteErrorView::TransportError(cause@),
            PasteError::RemoteError { status, body } => PasteErrorView::RemoteError {
                status,
                body: body@,
            },
        }
    }
}

/// The text shown for an error: a fixed text for the two errors of
/// resolving, the cause of a failed exchange, and the status and body of an
/// answer that is no success.
pub open spec fn message_text(e: PasteErrorView) -> Seq<char> {
    match e {
        PasteErrorView::InvalidUrl => "Invalid Url"@,
        PasteErrorView::InvalidArguments => "Invalid Arguments"@,
        PasteErrorView::TransportError(cause) => cause,
        PasteErrorView::RemoteError { status, body } => "Remote Error "@ + decimal(status as nat)
            + ": "@ + body,
    }
}

impl PasteError {
    /// The text to show the user for this error.
    pub fn message(&self) -> (r: String)
        ensures
            r@ == message_text(self@),
    {
        match self {
            PasteError::InvalidUrl => String::from_str("Invalid Url"),
            PasteError::InvalidArguments => String::from_str("Invalid Arguments"),
            PasteError::TransportError(cause) => cause.clone(),
            PasteError::RemoteError { status, body } => {
                String::from_str("Remote Error ").concat(decimal_text(*status).as_str()).concat(
                    ": ",
                ).concat(body.as_str())
            },
        }
    }

    /// The description of the underlying failure, where there is one.
    pub fn source(&self) -> (r: Option<String>)
        ensures
            match r {
                Some(cause) => self@ == PasteErrorView::TransportError(cause@),
                None => !(self is TransportError),
            },
    {
        match self {
            PasteError::TransportError(cause) => Some(cause.clone()),
            _ => None,
        }
    }
}

} // verus!
