//! The memory backend: the message is handed to a bounded in-process channel,
//! whose other end the caller may keep to see what was sent.
use crate::configuration::EmailConfiguration;
use crate::delivery::Delivery;
use crate::email::{EmailAddress, EmailAddressView, EmailObject, EmailObjectView};
use crate::errors::{EmailError, EmailErrorView};
use crate::traits::EmailTrait;
use std::sync::mpsc::SyncSender;
use vstd::prelude::*;
use vstd::std_specs::cmp::PartialEqSpecImpl;
use vstd::std_specs::convert::FromSpecImpl;

verus! {

#[verifier::external_type_specification]
#[verifier::external_body]
#[verifier::reject_recursive_types(T)]
pub struct ExSyncSender<T>(SyncSender<T>);

/// How many messages the channel of a client made by [`MemoryClient::new`] can hold.
pub const CHANNEL_CAPACITY: usize = 5;

/// The memory backend needs only a sender.
#[derive(Debug)]
pub struct MemoryConfig {
    pub sender: EmailAddress,
}

impl Clone for MemoryConfig {
    fn clone(&self) -> (r: Self)
        ensures
            r.sender@ == self.sender@,
    {
        MemoryConfig { sender: self.sender.clone() }
    }
}

impl Default for MemoryConfig {
    fn default() -> (r: Self)
        ensures
            r.sender@ == EmailAddressView::empty(),
    {
        MemoryConfig { sender: EmailAddress::default() }
    }
}

impl PartialEq for MemoryConfig {
    fn eq(&self, other: &Self) -> (r: bool) {
        self.sender == other.sender
    }
}

impl PartialEqSpecImpl for MemoryConfig {
    open spec fn obeys_eq_spec() -> bool {
        true
    }

    open spec fn eq_spec(&self, other: &Self) -> bool {
        self.sender@ == other.sender@
    }
}

impl MemoryConfig {
    /// A configuration with the given sender, converted as `T` converts.
    pub fn new<T: Into<EmailAddress>>(sender: T) -> (r: Self)
        ensures
            call_ensures(T::into, (sender,), r.sender),
    {
        MemoryConfig { sender: sender.into() }
    }
}

impl From<String> for MemoryConfig {
    fn from(value: String) -> (r: Self)
        ensures
            r.sender@ == EmailAddressView::bare(value@),
    {
        MemoryConfig::new(value.as_str())
    }
}

impl FromSpecImpl<String> for MemoryConfig {
    open spec fn obeys_from_spec() -> bool {
        false
    }

    open spec fn from_spec(value: String) -> Self {
        arbitrary()
    }
}

impl From<MemoryConfig> for EmailConfiguration {
    fn from(value: MemoryConfig) -> (r: Self) {
        EmailConfiguration::Memory(value)
    }
}

impl FromSpecImpl<MemoryConfig> for EmailConfiguration {
    open spec fn obeys_from_spec() -> bool {
        true
    }

    open spec fn from_spec(value: MemoryConfig) -> Self {
        EmailConfiguration::Memory(value)
    }
}

/// How an attempt to hand a message to the channel ended.
#[derive(Clone, Copy, Debug, PartialEq, Eq, Structural)]
pub enum HandOff {
    /// The channel took the message.
    Delivered,
    /// The channel holds as many messages as it can.
    Full,
    /// Nobody holds the receiving end any more.
    Disconnected,
}

/// Whether the channel that a sending end feeds was made without a receiver:
/// its receiving end was dropped as soon as the channel was made. This is
/// settled when the channel is made and is the same for all its sending ends.
pub uninterp spec fn made_without_receiver(tx: SyncSender<EmailObject>) -> bool;

/// `std::sync::mpsc::sync_channel`: the sending end of a new channel that
/// holds up to `capacity` messages. The receiving end is dropped at once.
#[verifier::external_body]
fn sender_without_receiver(capacity: usize) -> (r: SyncSender<EmailObject>)
    ensures
        made_without_receiver(r),
{
    let (tx, _) = std::sync::mpsc::sync_channel(capacity);
    tx
}

/// `SyncSender::try_send`: offers `email` to the channel without waiting, and
/// tells which of its three outcomes came. A channel whose receiver is gone
/// takes nothing. Otherwise the outcome depends on what the other holders of
/// the channel have done, so no more is promised of it.
#[verifier::external_body]
fn try_send(tx: &SyncSender<EmailObject>, email: EmailObject) -> (r: HandOff)
    ensures
        made_without_receiver(*tx) ==> r != HandOff::Delivered,
{
    match tx.try_send(email) {
        Ok(()) => HandOff::Delivered,
        Err(std::sync::mpsc::TrySendError::Full(_)) => HandOff::Full,
        Err(std::sync::mpsc::TrySendError::Disconnected(_)) => HandOff::Disconnected,
    }
}

/// `Clone::clone` of `SyncSender`: one more sending end of the same channel.
#[verifier::external_body]
fn another_sender(tx: &SyncSender<EmailObject>) -> (r: SyncSender<EmailObject>)
    ensures
        made_without_receiver(r) == made_without_receiver(*tx),
{
    tx.clone()
}

/// The client of the memory backend.
#[derive(Debug)]
pub struct MemoryClient {
    sender: EmailAddress,
    tx: SyncSender<EmailObject>,
}

/// What a hand-off that did not succeed is reported as.
pub open spec fn hand_off_failure() -> EmailErrorView {
    EmailErrorView::UnexpectedError("Cannot send email in memory"@)
}

/// What sending reports for each way the hand-off can end: success when the
/// channel took the message, and otherwise the same error whether the channel
/// was full or had lost its receiver.
pub fn hand_off_result(outcome: HandOff) -> (r: Result<Delivery, EmailError>)
    ensures
        outcome == HandOff::Delivered ==> r matches Ok(Delivery::Done),
        outcome != HandOff::Delivered ==> (r matches Err(e) && e@ == hand_off_failure()),
{
    match outcome {
        HandOff::Delivered => Ok(Delivery::Done),
        _ => Err(EmailError::UnexpectedError("Cannot send email in memory".to_owned())),
    }
}

impl Clone for MemoryClient {
    /// A client with the same sender that feeds the same channel.
    fn clone(&self) -> (r: Self)
        ensures
            r.sender_view() == self.sender_view(),
            made_without_receiver(r.channel()) == made_without_receiver(self.channel()),
    {
        MemoryClient { sender: self.sender.clone(), tx: another_sender(&self.tx) }
    }
}

impl Default for MemoryClient {
    /// A client with an empty sender. Nobody holds the other end of its
    /// channel, so whatever it sends fails.
    fn default() -> (r: Self)
        ensures
            r.sender_view() == EmailAddressView::empty(),
            made_without_receiver(r.channel()),
    {
        MemoryClient {
            sender: EmailAddress::default(),
            tx: sender_without_receiver(CHANNEL_CAPACITY),
        }
    }
}

impl MemoryClient {
    /// A client with the configured sender. Nobody holds the other end of its
    /// channel, so whatever it sends fails.
    pub fn new(config: MemoryConfig) -> (r: Self)
        ensures
            r.sender_view() == config.sender@,
            made_without_receiver(r.channel()),
    {
        MemoryClient { sender: config.sender, tx: sender_without_receiver(CHANNEL_CAPACITY) }
    }

    /// A client with the configured sender that hands its messages to `tx`.
    pub fn with_tx(config: MemoryConfig, tx: SyncSender<EmailObject>) -> (r: Self)
        ensures
            r.sender_view() == config.sender@,
            r.channel() == tx,
    {
        MemoryClient { sender: config.sender, tx }
    }

    /// The sending end that the client hands its messages to.
    pub closed spec fn channel(&self) -> SyncSender<EmailObject> {
        self.tx
    }
}

impl EmailTrait for MemoryClient {
    closed spec fn sender_view(&self) -> EmailAddressView {
        self.sender@
    }

    open spec fn dispatches(
        &self,
        email: EmailObjectView,
        outcome: Result<Delivery, EmailError>,
    ) -> bool {
        if made_without_receiver(self.channel()) {
            outcome matches Err(e) && e@ == hand_off_failure()
        } else {
            ||| outcome matches Ok(Delivery::Done)
            ||| outcome matches Err(e) && e@ == hand_off_failure()
        }
    }

    fn get_sender(&self) -> (r: EmailAddress) {
        self.sender.clone()
    }

    /// Offers `email` to the channel once, without waiting. Fails at once
    /// where the channel is full or has lost its receiver, and so always
    /// where the channel was made without one.
    fn send_emails(&self, email: EmailObject) -> (r: Result<Delivery, EmailError>) {
        hand_off_result(try_send(&self.tx, email))
    }
}

} // verus!
