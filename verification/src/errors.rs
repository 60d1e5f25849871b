//! The errors of sending an email.
use crate::text::join;
use vstd::prelude::*;

verus! {

/// Why an email could not be sent. No variant carries a credential.
#[derive(Debug)]
pub enum EmailError {
    /// A sender or recipient address is malformed; holds the parser's words.
    AddressError(String),
    /// The message could not be built from its parts; holds the builder's words.
    Lettre(String),
    /// The SMTP transport failed; holds the transport's words.
    SmtpError(String),
    /// Anything else, such as a failed hand-off to the in-memory channel.
    UnexpectedError(String),
    /// The API token cannot be written into an HTTP header.
    MailsendHeaderError,
    /// The HTTP API answered outside the 2xx range or could not be reached.
    ReqwestError(String),
}

/// The mathematical value of an [`EmailError`].
pub enum EmailErrorView {
    AddressError(Seq<char>),
    Lettre(Seq<char>),
    SmtpError(Seq<char>),
    UnexpectedError(Seq<char>),
    MailsendHeaderError,
    ReqwestError(Seq<char>),
}

impl View for EmailError {
    type V = EmailErrorView;

    open spec fn view(&self) -> EmailErrorView {
        match self {
            EmailError::AddressError(detail) => EmailErrorView::AddressError(detail@),
            EmailError::Lettre(detail) => EmailErrorView::Lettre(detail@),
            EmailError::SmtpError(detail) => EmailErrorView::SmtpError(detail@),
            EmailError::UnexpectedError(detail) => EmailErrorView::UnexpectedError(detail@),
            EmailError::MailsendHeaderError => EmailErrorView::MailsendHeaderError,
            EmailError::ReqwestError(detail) => EmailErrorView::ReqwestError(detail@),
        }
    }
}

impl EmailErrorView {
    /// The text shown for the error.
    pub open spec fn message(self) -> Seq<char> {
        match self {
            EmailErrorView::AddressError(detail) => "Invalid address "@ + detail,
            EmailErrorView::Lettre(detail) => "Failed to send email "@ + detail,
            EmailErrorView::SmtpError(detail) => "Failed to send email "@ + detail,
            EmailErrorView::UnexpectedError(detail) => "Unexpected error: "@ + detail,
            EmailErrorView::MailsendHeaderError => "Invalid api token for mailsend"@,
            EmailErrorView::ReqwestError(detail) => "Failed during making an API request: "@
                + detail,
        }
    }
}

impl EmailError {
    /// The text shown for the error.
    pub fn to_string(&self) -> (r: String)
        ensures
            r@ == self@.message(),
    {
        match self {
            EmailError::AddressError(detail) => join("Invalid address ", detail.as_str()),
            EmailError::Lettre(detail) => join("Failed to send email ", detail.as_str()),
            EmailError::SmtpError(detail) => join("Failed to send email ", detail.as_str()),
            EmailError::UnexpectedError(detail) => join("Unexpected error: ", detail.as_str()),
            EmailError::MailsendHeaderError => "Invalid api token for mailsend".to_owned(),
            EmailError::ReqwestError(detail) => join(
                "Failed during making an API request: ",
                detail.as_str(),
            ),
        }
    }
}

} // verus!
