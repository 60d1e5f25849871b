//! The backends, and the choice among them.
use crate::configuration::EmailConfiguration;
use crate::delivery::Delivery;
use crate::email::{EmailAddress, EmailAddressView, EmailObject, EmailObjectView};
use crate::errors::EmailError;
use crate::traits::EmailTrait;
use vstd::prelude::*;

pub mod mailersend;
pub mod memory;
pub mod smtp;
pub mod terminal;

verus! {

/// A client of one of the backends.
#[derive(Debug)]
pub enum EmailClient {
    Smtp(smtp::SmtpClient),
    Terminal(terminal::TerminalClient),
    Memory(memory::MemoryClient),
    MailerSend(mailersend::MailerSendClient),
}

impl Clone for EmailClient {
    /// A client of the same backend that sends from the same address and
    /// decides as this one does.
    fn clone(&self) -> (r: Self)
        ensures
            r.sender_view() == self.sender_view(),
            forall|email: EmailObjectView, outcome: Result<Delivery, EmailError>|
                #[trigger] r.dispatches(email, outcome) == self.dispatches(email, outcome),
    {
        match self {
            EmailClient::Smtp(c) => EmailClient::Smtp(c.clone()),
            EmailClient::Terminal(c) => EmailClient::Terminal(c.clone()),
            EmailClient::Memory(c) => EmailClient::Memory(c.clone()),
            EmailClient::MailerSend(c) => EmailClient::MailerSend(c.clone()),
        }
    }
}

impl Default for EmailClient {
    /// The terminal client with an empty sender.
    fn default() -> (r: Self)
        ensures
            r is Terminal,
            r.sender_view() == EmailAddressView::empty(),
    {
        EmailClient::Terminal(terminal::TerminalClient::default())
    }
}

/// A mailer whose backend is no longer visible in its type.
pub struct Mailer {
    inner: Box<dyn EmailTrait>,
}

impl EmailTrait for Mailer {
    closed spec fn sender_view(&self) -> EmailAddressView {
        self.inner.sender_view()
    }

    closed spec fn dispatches(
        &self,
        email: EmailObjectView,
        outcome: Result<Delivery, EmailError>,
    ) -> bool {
        self.inner.dispatches(email, outcome)
    }

    fn get_sender(&self) -> (r: EmailAddress) {
        self.inner.get_sender()
    }

    fn send_emails(&self, email: EmailObject) -> (r: Result<Delivery, EmailError>) {
        self.inner.send_emails(email)
    }
}

impl EmailClient {
    /// The address that the client sends from.
    pub open spec fn sender_view(&self) -> EmailAddressView {
        match self {
            EmailClient::Smtp(c) => c.sender_view(),
            EmailClient::Terminal(c) => c.sender_view(),
            EmailClient::Memory(c) => c.sender_view(),
            EmailClient::MailerSend(c) => c.sender_view(),
        }
    }

    /// Whether `outcome` is what sending `email` through the client may give.
    pub open spec fn dispatches(
        &self,
        email: EmailObjectView,
        outcome: Result<Delivery, EmailError>,
    ) -> bool {
        match self {
            EmailClient::Smtp(c) => c.dispatches(email, outcome),
            EmailClient::Terminal(c) => c.dispatches(email, outcome),
            EmailClient::Memory(c) => c.dispatches(email, outcome),
            EmailClient::MailerSend(c) => c.dispatches(email, outcome),
        }
    }

    /// Whether the client is the one that [`get_email_client`] makes for
    /// `configuration`: of the same backend, holding what was configured.
    pub open spec fn made_from(&self, configuration: &EmailConfiguration) -> bool {
        match configuration {
            EmailConfiguration::Terminal(config) => *self matches EmailClient::Terminal(c)
                && c.sender_text() == config.sender@,
            EmailConfiguration::SMTP(config) => *self matches EmailClient::Smtp(c)
                && c.config_view() == config@,
            EmailConfiguration::Memory(config) => *self matches EmailClient::Memory(c)
                && c.sender_view() == config.sender@,
            EmailConfiguration::Mailersend(config) => *self matches EmailClient::MailerSend(c)
                && c.config_view() == config@,
        }
    }

    /// Whether `mailer` behaves as the client does.
    pub open spec fn erased_as(&self, mailer: &Mailer) -> bool {
        &&& mailer.sender_view() == self.sender_view()
        &&& forall|email: EmailObjectView, outcome: Result<Delivery, EmailError>|
            #[trigger] mailer.dispatches(email, outcome) == self.dispatches(email, outcome)
    }

    /// The client as a mailer of no particular backend. The mailer owns the
    /// client, and this cannot fail.
    pub fn unwrap(self) -> (r: Mailer)
        ensures
            self.erased_as(&r),
    {
        match self {
            EmailClient::Smtp(c) => Mailer { inner: Box::new(c) },
            EmailClient::Terminal(c) => Mailer { inner: Box::new(c) },
            EmailClient::Memory(c) => Mailer { inner: Box::new(c) },
            EmailClient::MailerSend(c) => Mailer { inner: Box::new(c) },
        }
    }
}

/// The client of the backend that `configuration` names. Nothing is read or
/// written: what was configured is moved into the client.
pub fn get_email_client(configuration: EmailConfiguration) -> (r: EmailClient)
    ensures
        r.made_from(&configuration),
{
    match configuration {
        EmailConfiguration::Terminal(c) => EmailClient::Terminal(terminal::TerminalClient::new(c)),
        EmailConfiguration::SMTP(c) => EmailClient::Smtp(smtp::SmtpClient::new(c)),
        EmailConfiguration::Memory(c) => EmailClient::Memory(memory::MemoryClient::new(c)),
        EmailConfiguration::Mailersend(c) => EmailClient::MailerSend(
            mailersend::MailerSendClient::new(c),
        ),
    }
}

/// Whatever the backend, a mailer made from a configuration sends from the
/// address that the configuration holds.
pub proof fn lemma_sender_round_trip(
    configuration: EmailConfiguration,
    client: EmailClient,
    mailer: Mailer,
)
    requires
        client.made_from(&configuration),
        client.erased_as(&mailer),
    ensures
        mailer.sender_view() == configuration.sender_view(),
{
}

} // verus!
