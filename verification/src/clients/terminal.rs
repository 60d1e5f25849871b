//! The terminal backend: the message is written to standard output.
use crate::configuration::EmailConfiguration;
use crate::delivery::Delivery;
use crate::email::{EmailAddress, EmailAddressView, EmailObject, EmailObjectView};
use crate::errors::EmailError;
use crate::text::{join, text_views};
use crate::traits::EmailTrait;
use vstd::prelude::*;
use vstd::std_specs::cmp::PartialEqSpecImpl;
use vstd::std_specs::convert::FromSpecImpl;

verus! {

/// The terminal backend needs only a sender.
#[derive(Debug)]
pub struct TerminalConfig {
    pub sender: String,
}

impl Clone for TerminalConfig {
    fn clone(&self) -> (r: Self)
        ensures
            r.sender@ == self.sender@,
    {
        TerminalConfig { sender: self.sender.clone() }
    }
}

impl Default for TerminalConfig {
    fn default() -> (r: Self)
        ensures
            r.sender@ == Seq::<char>::empty(),
    {
        TerminalConfig { sender: String::new() }
    }
}

impl PartialEq for TerminalConfig {
    fn eq(&self, other: &Self) -> (r: bool) {
        self.sender == other.sender
    }
}

impl PartialEqSpecImpl for TerminalConfig {
    open spec fn obeys_eq_spec() -> bool {
        true
    }

    open spec fn eq_spec(&self, other: &Self) -> bool {
        self.sender@ == other.sender@
    }
}

impl From<String> for TerminalConfig {
    fn from(value: String) -> (r: Self) {
        TerminalConfig { sender: value }
    }
}

impl FromSpecImpl<String> for TerminalConfig {
    open spec fn obeys_from_spec() -> bool {
        true
    }

    open spec fn from_spec(value: String) -> Self {
        TerminalConfig { sender: value }
    }
}

impl From<TerminalConfig> for EmailConfiguration {
    fn from(value: TerminalConfig) -> (r: Self) {
        EmailConfiguration::Terminal(value)
    }
}

impl FromSpecImpl<TerminalConfig> for EmailConfiguration {
    open spec fn obeys_from_spec() -> bool {
        true
    }

    open spec fn from_spec(value: TerminalConfig) -> Self {
        EmailConfiguration::Terminal(value)
    }
}

/// The line written for one recipient.
pub open spec fn recipient_line(recipient: EmailAddressView) -> Seq<char> {
    "To: "@ + recipient.name + " <"@ + recipient.email + ">"@
}

/// The lines written for a message: the sender, each recipient, the subject,
/// a blank line, the plain body, a separator and the HTML body.
pub open spec fn terminal_lines(sender: Seq<char>, email: EmailObjectView) -> Seq<Seq<char>> {
    seq!["From: "@ + sender] + email.to.map_values(|a: EmailAddressView| recipient_line(a))
        + seq![
        "Subject: "@ + email.subject,
        Seq::<char>::empty(),
        email.plain,
        "----------"@,
        email.html,
    ]
}

/// The client of the terminal backend.
#[derive(Debug)]
pub struct TerminalClient {
    sender: String,
}

impl Clone for TerminalClient {
    fn clone(&self) -> (r: Self)
        ensures
            r.sender_text() == self.sender_text(),
    {
        TerminalClient { sender: self.sender.clone() }
    }
}

impl Default for TerminalClient {
    fn default() -> (r: Self)
        ensures
            r.sender_text() == Seq::<char>::empty(),
    {
        TerminalClient { sender: String::new() }
    }
}

impl TerminalClient {
    /// The sender as it was configured.
    pub closed spec fn sender_text(&self) -> Seq<char> {
        self.sender@
    }

    /// A client that sends as the configured sender.
    pub fn new(config: TerminalConfig) -> (r: Self)
        ensures
            r.sender_text() == config.sender@,
    {
        TerminalClient { sender: config.sender }
    }

    /// The line for one recipient.
    fn recipient_line(recipient: &EmailAddress) -> (r: String)
        ensures
            r@ == recipient_line(recipient@),
    {
        let mut line = join("To: ", recipient.name.as_str());
        line.append(" <");
        line.append(recipient.email.as_str());
        line.append(">");
        line
    }
}

impl EmailTrait for TerminalClient {
    open spec fn sender_view(&self) -> EmailAddressView {
        EmailAddressView::bare(self.sender_text())
    }

    open spec fn dispatches(
        &self,
        email: EmailObjectView,
        outcome: Result<Delivery, EmailError>,
    ) -> bool {
        outcome matches Ok(Delivery::Print(lines)) && text_views(lines@) == terminal_lines(
            self.sender_text(),
            email,
        )
    }

    fn get_sender(&self) -> (r: EmailAddress) {
        EmailAddress { name: String::new(), email: self.sender.clone() }
    }

    /// Never fails: the lines are handed back to be written.
    fn send_emails(&self, email: EmailObject) -> (r: Result<Delivery, EmailError>) {
        let ghost expected = terminal_lines(self.sender_text(), email@);
        let count = email.to.len();
        let mut lines: Vec<String> = Vec::new();
        lines.push(join("From: ", self.sender.as_str()));
        let mut i: usize = 0;
        while i < count
            invariant
                count == email.to.len(),
                i <= count,
                lines.len() == i + 1,
                lines[0]@ == "From: "@ + self.sender@,
                forall|j: int| 1 <= j <= i ==> (#[trigger] lines[j])@ == recipient_line(email.to[j - 1]@),
            decreases count - i,
        {
            lines.push(Self::recipient_line(&email.to[i]));
            i += 1;
        }
        lines.push(join("Subject: ", email.subject.as_str()));
        lines.push(String::new());
        lines.push(email.plain);
        lines.push("----------".to_owned());
        lines.push(email.html);
        proof {
            let got = text_views(lines@);
            assert(got.len() == expected.len());
            assert forall|k: int| 0 <= k < got.len() implies got[k] == expected[k] by {
                if 1 <= k <= count {
                    assert(lines[k]@ == recipient_line(email.to[k - 1]@));
                }
            }
            assert(got =~= expected);
        }
        Ok(Delivery::Print(lines))
    }
}

} // verus!
