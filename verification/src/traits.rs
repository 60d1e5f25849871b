//! The capability that every backend offers.
use crate::delivery::Delivery;
use crate::email::{EmailAddress, EmailAddressView, EmailObject, EmailObjectView};
use crate::errors::EmailError;
use vstd::prelude::*;

verus! {

/// A mailer: it knows who it sends as, and it can send a message.
///
/// Neither operation changes the mailer, so one that failed to send is as
/// usable afterwards as it was before.
pub trait EmailTrait: Send + Sync {
    /// The address that the mailer was configured to send from.
    spec fn sender_view(&self) -> EmailAddressView;

    /// Whether `outcome` is what sending `email` through this mailer may give.
    spec fn dispatches(&self, email: EmailObjectView, outcome: Result<Delivery, EmailError>) -> bool;

    /// The configured sender.
    fn get_sender(&self) -> (r: EmailAddress)
        ensures
            r@ == self.sender_view(),
    ;

    /// Decides how `email` goes out through this mailer, and does of it what
    /// needs neither the terminal nor the network. The [`Delivery`] names the
    /// rest.
    fn send_emails(&self, email: EmailObject) -> (r: Result<Delivery, EmailError>)
        ensures
            self.dispatches(email@, r),
    ;
}

} // verus!
