//! The address and the message that every backend works on.
use crate::errors::{EmailError, EmailErrorView};
use lettre::message::Mailbox;
use lettre::Address;
use vstd::prelude::*;
use vstd::std_specs::cmp::PartialEqSpecImpl;
use vstd::std_specs::convert::FromSpecImpl;

verus! {

/// A display name and an address. Either may be empty.
#[derive(Debug)]
pub struct EmailAddress {
    pub name: String,
    pub email: String,
}

/// The mathematical value of an [`EmailAddress`].
pub struct EmailAddressView {
    pub name: Seq<char>,
    pub email: Seq<char>,
}

impl EmailAddressView {
    /// The address with no name and no email.
    pub open spec fn empty() -> EmailAddressView {
        EmailAddressView { name: Seq::empty(), email: Seq::empty() }
    }

    /// The address that has only an email.
    pub open spec fn bare(email: Seq<char>) -> EmailAddressView {
        EmailAddressView { name: Seq::empty(), email }
    }

    /// The display form: `name <email>`, or the email alone where there is no name.
    pub open spec fn display(self) -> Seq<char> {
        if self.name.len() == 0 {
            self.email
        } else {
            self.name + " <"@ + self.email + ">"@
        }
    }
}

impl View for EmailAddress {
    type V = EmailAddressView;

    open spec fn view(&self) -> EmailAddressView {
        EmailAddressView { name: self.name@, email: self.email@ }
    }
}

impl Clone for EmailAddress {
    fn clone(&self) -> (r: Self)
        ensures
            r@ == self@,
    {
        EmailAddress { name: self.name.clone(), email: self.email.clone() }
    }
}

impl Default for EmailAddress {
    fn default() -> (r: Self)
        ensures
            r@ == EmailAddressView::empty(),
    {
        EmailAddress { name: String::new(), email: String::new() }
    }
}

impl PartialEq for EmailAddress {
    fn eq(&self, other: &Self) -> (r: bool) {
        self.name == other.name && self.email == other.email
    }
}

impl PartialEqSpecImpl for EmailAddress {
    open spec fn obeys_eq_spec() -> bool {
        true
    }

    open spec fn eq_spec(&self, other: &Self) -> bool {
        self@ == other@
    }
}

// A `String` cannot be made in a specification, so no `from_spec` can name what
// the two conversions below return: each says it in its own `ensures`.
impl FromSpecImpl<&str> for EmailAddress {
    open spec fn obeys_from_spec() -> bool {
        false
    }

    open spec fn from_spec(value: &str) -> Self {
        arbitrary()
    }
}

impl From<&str> for EmailAddress {
    /// The address that has `value` as its email and no name.
    fn from(value: &str) -> (r: Self)
        ensures
            r@ == EmailAddressView::bare(value@),
    {
        EmailAddress { name: String::new(), email: value.to_owned() }
    }
}

impl FromSpecImpl<String> for EmailAddress {
    open spec fn obeys_from_spec() -> bool {
        false
    }

    open spec fn from_spec(value: String) -> Self {
        arbitrary()
    }
}

impl From<String> for EmailAddress {
    /// The address that has `value` as its email and no name.
    fn from(value: String) -> (r: Self)
        ensures
            r@ == EmailAddressView::bare(value@),
    {
        EmailAddress { name: String::new(), email: value }
    }
}

#[verifier::external_type_specification]
#[verifier::external_body]
pub struct ExAddress(Address);

#[verifier::external_type_specification]
pub struct ExMailbox(Mailbox);

/// What `lettre`'s address parser finds wrong with `email`, in its own words;
/// `None` where it accepts `email` as an address.
pub uninterp spec fn address_fault(email: Seq<char>) -> Option<Seq<char>>;

/// The text that an address was parsed from.
pub uninterp spec fn address_text(address: Address) -> Seq<char>;

/// `<lettre::Address as FromStr>::from_str`, with the error rendered by its
/// `Display`: the parser accepts `email` or names a fault, the same for the
/// same text every time, and an accepted address holds the text unchanged.
#[verifier::external_body]
fn parse_address(email: &str) -> (r: Result<Address, String>)
    ensures
        match r {
            Ok(address) => address_fault(email@) is None && address_text(address) == email@,
            Err(fault) => address_fault(email@) == Some(fault@),
        },
{
    match email.parse::<Address>() {
        Ok(address) => Ok(address),
        Err(fault) => Err(format!("{}", fault)),
    }
}

/// The fault of the first of `emails` that the address parser rejects, if any.
pub open spec fn first_fault(emails: Seq<Seq<char>>) -> Option<Seq<char>>
    decreases emails.len(),
{
    if emails.len() == 0 {
        None
    } else if address_fault(emails[0]) is Some {
        address_fault(emails[0])
    } else {
        first_fault(emails.drop_first())
    }
}

/// Where the first `at` of `emails` are accepted and the next one is not, the
/// first fault is that one's.
pub proof fn lemma_first_fault_at(emails: Seq<Seq<char>>, at: int)
    requires
        0 <= at < emails.len(),
        forall|j: int| 0 <= j < at ==> address_fault(#[trigger] emails[j]) is None,
        address_fault(emails[at]) is Some,
    ensures
        first_fault(emails) == address_fault(emails[at]),
    decreases emails.len(),
{
    if at > 0 {
        let rest = emails.drop_first();
        assert forall|j: int| 0 <= j < at - 1 implies address_fault(#[trigger] rest[j]) is None by {
            assert(rest[j] == emails[j + 1]);
        }
        lemma_first_fault_at(rest, at - 1);
    }
}

/// Where all of `emails` are accepted, there is no first fault.
pub proof fn lemma_first_fault_none(emails: Seq<Seq<char>>)
    requires
        forall|j: int| 0 <= j < emails.len() ==> address_fault(#[trigger] emails[j]) is None,
    ensures
        first_fault(emails) is None,
    decreases emails.len(),
{
    if emails.len() > 0 {
        let rest = emails.drop_first();
        assert forall|j: int| 0 <= j < rest.len() implies address_fault(#[trigger] rest[j]) is None by {
            assert(rest[j] == emails[j + 1]);
        }
        lemma_first_fault_none(rest);
    }
}

/// What converting an address to a mailbox gives: the mailbox that holds the
/// name and the parsed email, or the parser's fault as an address error.
pub open spec fn mailbox_outcome(
    address: EmailAddressView,
    outcome: Result<Mailbox, EmailError>,
) -> bool {
    match address_fault(address.email) {
        Some(fault) => outcome matches Err(e) && e@ == EmailErrorView::AddressError(fault),
        None => outcome matches Ok(mailbox) && mailbox.name matches Some(name) && name@
            == address.name && address_text(mailbox.email) == address.email,
    }
}

impl EmailAddress {
    /// The mailbox of this address, as the SMTP backend needs it. The name is
    /// kept as it is, even where empty; the email has to parse as an address.
    pub fn try_into_mailbox(self) -> (r: Result<Mailbox, EmailError>)
        ensures
            mailbox_outcome(self@, r),
    {
        match parse_address(self.email.as_str()) {
            Ok(email) => Ok(Mailbox { name: Some(self.name), email }),
            Err(fault) => Err(EmailError::AddressError(fault)),
        }
    }

    /// The display form of the address.
    pub fn to_string(&self) -> (r: String)
        ensures
            r@ == self@.display(),
    {
        if self.name.as_str().is_empty() {
            self.email.clone()
        } else {
            let mut text = self.name.clone();
            text.append(" <");
            text.append(self.email.as_str());
            text.append(">");
            text
        }
    }
}

/// A composed message: who sends it, to whom, and what it says.
#[derive(Debug)]
pub struct EmailObject {
    pub sender: EmailAddress,
    pub to: Vec<EmailAddress>,
    pub subject: String,
    pub plain: String,
    pub html: String,
}

/// The mathematical value of an [`EmailObject`].
pub struct EmailObjectView {
    pub sender: EmailAddressView,
    pub to: Seq<EmailAddressView>,
    pub subject: Seq<char>,
    pub plain: Seq<char>,
    pub html: Seq<char>,
}

/// The values of a list of addresses, in order.
pub open spec fn address_views(addresses: Seq<EmailAddress>) -> Seq<EmailAddressView> {
    addresses.map_values(|a: EmailAddress| a@)
}

impl View for EmailObject {
    type V = EmailObjectView;

    open spec fn view(&self) -> EmailObjectView {
        EmailObjectView {
            sender: self.sender@,
            to: address_views(self.to@),
            subject: self.subject@,
            plain: self.plain@,
            html: self.html@,
        }
    }
}

/// A copy of a list of addresses, equal by value and in the same order.
pub fn clone_addresses(addresses: &Vec<EmailAddress>) -> (r: Vec<EmailAddress>)
    ensures
        address_views(r@) == address_views(addresses@),
{
    let mut copy: Vec<EmailAddress> = Vec::new();
    let mut i: usize = 0;
    while i < addresses.len()
        invariant
            i <= addresses.len(),
            copy.len() == i,
            forall|j: int| 0 <= j < i ==> copy[j]@ == addresses[j]@,
        decreases addresses.len() - i,
    {
        copy.push(addresses[i].clone());
        i += 1;
    }
    assert(address_views(copy@) =~= address_views(addresses@));
    copy
}

impl Clone for EmailObject {
    fn clone(&self) -> (r: Self)
        ensures
            r@ == self@,
    {
        EmailObject {
            sender: self.sender.clone(),
            to: clone_addresses(&self.to),
            subject: self.subject.clone(),
            plain: self.plain.clone(),
            html: self.html.clone(),
        }
    }
}

impl Default for EmailObject {
    fn default() -> (r: Self)
        ensures
            r@ == (EmailObjectView {
                sender: EmailAddressView::empty(),
                to: Seq::empty(),
                subject: Seq::empty(),
                plain: Seq::empty(),
                html: Seq::empty(),
            }),
    {
        let r = EmailObject {
            sender: EmailAddress::default(),
            to: Vec::new(),
            subject: String::new(),
            plain: String::new(),
            html: String::new(),
        };
        assert(address_views(r.to@) =~= Seq::empty());
        r
    }
}

} // verus!
