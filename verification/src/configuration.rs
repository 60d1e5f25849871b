//! The configuration of a backend, one variant for each.
use crate::clients::mailersend::MailerSendConfig;
use crate::clients::memory::MemoryConfig;
use crate::clients::smtp::SmtpConfig;
use crate::clients::terminal::TerminalConfig;
use crate::email::{EmailAddress, EmailAddressView};
use vstd::prelude::*;

verus! {

/// Which backend to use, and what it needs.
#[derive(Debug)]
pub enum EmailConfiguration {
    /// Echo the message to the terminal.
    Terminal(TerminalConfig),
    /// Send the message through an SMTP relay.
    SMTP(SmtpConfig),
    /// Hand the message to an in-process channel.
    Memory(MemoryConfig),
    /// Post the message to the MailerSend API.
    Mailersend(MailerSendConfig),
}

impl Default for EmailConfiguration {
    /// The terminal backend with an empty sender.
    fn default() -> (r: Self)
        ensures
            r is Terminal,
            r.sender_view() == EmailAddressView::empty(),
    {
        EmailConfiguration::Terminal(TerminalConfig::default())
    }
}

impl EmailConfiguration {
    /// The sender that the configuration holds, whichever the backend.
    pub open spec fn sender_view(&self) -> EmailAddressView {
        match self {
            EmailConfiguration::Terminal(config) => EmailAddressView::bare(config.sender@),
            EmailConfiguration::SMTP(config) => config.sender@,
            EmailConfiguration::Memory(config) => config.sender@,
            EmailConfiguration::Mailersend(config) => config@.sender,
        }
    }

    /// The sender that the configuration holds, whichever the backend.
    pub fn get_sender(&self) -> (r: EmailAddress)
        ensures
            r@ == self.sender_view(),
    {
        match self {
            EmailConfiguration::Terminal(config) => EmailAddress {
                name: String::new(),
                email: config.sender.clone(),
            },
            EmailConfiguration::SMTP(config) => config.sender.clone(),
            EmailConfiguration::Memory(config) => config.sender.clone(),
            EmailConfiguration::Mailersend(config) => config.get_sender(),
        }
    }
}

} // verus!
