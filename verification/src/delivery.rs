//! What remains to be done once a backend has decided how a message goes out.
use crate::clients::mailersend::HttpRequest;
use crate::clients::smtp::SmtpDispatch;
use vstd::prelude::*;

verus! {

/// The input or output that the caller carries out after
/// [`crate::traits::EmailTrait::send_emails`] has returned `Ok`.
pub enum Delivery {
    /// Nothing is left to do: the message was handed over within the call.
    Done,
    /// These lines go to standard output, one after the other.
    Print(Vec<String>),
    /// This message goes to an SMTP relay over this transport.
    Smtp(SmtpDispatch),
    /// This request goes to the HTTP API.
    Http(HttpRequest),
}

} // verus!
