//! The SMTP backend: the message is built for a relay, which is reached
//! without encryption, over implicit TLS, or with STARTTLS.
use crate::configuration::EmailConfiguration;
use crate::delivery::Delivery;
use crate::email::{
    address_fault, address_views, first_fault, lemma_first_fault_at,
    lemma_first_fault_none, EmailAddress, EmailAddressView, EmailObject, EmailObjectView,
};
use crate::errors::{EmailError, EmailErrorView};
use crate::secret::SecretText;
use crate::traits::EmailTrait;
use lettre::message::{MessageBuilder, MultiPart};
use lettre::transport::smtp::authentication::Credentials;
use lettre::Message;
use vstd::prelude::*;
use vstd::std_specs::convert::FromSpecImpl;

verus! {

#[verifier::external_type_specification]
#[verifier::external_body]
pub struct ExMessage(Message);

#[verifier::external_type_specification]
#[verifier::external_body]
pub struct ExMessageBuilder(MessageBuilder);

#[verifier::external_type_specification]
#[verifier::external_body]
pub struct ExMultiPart(MultiPart);

#[verifier::external_type_specification]
#[verifier::external_body]
pub struct ExCredentials(Credentials);

/// How the connection to the relay is secured.
#[derive(Debug, Clone, Copy, PartialEq, Eq, Structural)]
pub enum TlsMode {
    /// No encryption and no authentication, as for a relay on the same machine.
    Local,
    /// TLS from the first byte.
    Tls,
    /// Unencrypted at first, then upgraded with STARTTLS.
    StartTls,
}

impl Default for TlsMode {
    fn default() -> (r: Self)
        ensures
            r == TlsMode::Local,
    {
        TlsMode::Local
    }
}

/// How long connecting to a local relay may take, in seconds.
pub const LOCAL_TIMEOUT_SECS: u64 = 10;

/// What the SMTP backend needs: the sender, the relay and how to reach it.
/// The password is never shown.
#[derive(Debug)]
pub struct SmtpConfig {
    pub sender: EmailAddress,
    pub relay: String,
    pub username: String,
    pub password: SecretText,
    pub port: u16,
    pub tls: TlsMode,
}

/// The mathematical value of an [`SmtpConfig`].
pub struct SmtpConfigView {
    pub sender: EmailAddressView,
    pub relay: Seq<char>,
    pub username: Seq<char>,
    pub password: Seq<char>,
    pub port: u16,
    pub tls: TlsMode,
}

impl View for SmtpConfig {
    type V = SmtpConfigView;

    open spec fn view(&self) -> SmtpConfigView {
        SmtpConfigView {
            sender: self.sender@,
            relay: self.relay@,
            username: self.username@,
            password: self.password@,
            port: self.port,
            tls: self.tls,
        }
    }
}

/// `lettre::transport::smtp::SMTP_PORT`, the port that SMTP relays listen on.
#[verifier::external_body]
fn smtp_port() -> (r: u16)
    ensures
        r == 25,
{
    lettre::transport::smtp::SMTP_PORT
}

impl Clone for SmtpConfig {
    fn clone(&self) -> (r: Self)
        ensures
            r@ == self@,
    {
        SmtpConfig {
            sender: self.sender.clone(),
            relay: self.relay.clone(),
            username: self.username.clone(),
            password: self.password.clone(),
            port: self.port,
            tls: self.tls,
        }
    }
}

impl Default for SmtpConfig {
    /// An unauthenticated, unencrypted connection to `localhost` on the SMTP
    /// port, with an empty sender.
    fn default() -> (r: Self)
        ensures
            r@ == SmtpConfig::default_view(),
    {
        SmtpConfig {
            sender: EmailAddress::default(),
            relay: "localhost".to_owned(),
            username: String::new(),
            password: SecretText::default(),
            port: smtp_port(),
            tls: TlsMode::Local,
        }
    }
}

impl SmtpConfig {
    /// The value of the configuration that `default` gives.
    pub open spec fn default_view() -> SmtpConfigView {
        SmtpConfigView {
            sender: EmailAddressView::empty(),
            relay: "localhost"@,
            username: Seq::empty(),
            password: Seq::empty(),
            port: 25,
            tls: TlsMode::Local,
        }
    }

    /// The same configuration with another sender, converted as `T` converts.
    pub fn sender<T: Into<EmailAddress>>(self, value: T) -> (r: Self)
        ensures
            call_ensures(T::into, (value,), r.sender),
            r@ == (SmtpConfigView { sender: r.sender@, ..self@ }),
    {
        let mut config = self;
        config.sender = value.into();
        config
    }

    /// The same configuration with another relay host.
    pub fn relay(self, value: &str) -> (r: Self)
        ensures
            r@ == (SmtpConfigView { relay: value@, ..self@ }),
    {
        let mut config = self;
        config.relay = value.to_owned();
        config
    }

    /// The same configuration with another user name.
    pub fn username(self, value: &str) -> (r: Self)
        ensures
            r@ == (SmtpConfigView { username: value@, ..self@ }),
    {
        let mut config = self;
        config.username = value.to_owned();
        config
    }

    /// The same configuration with another password.
    pub fn password(self, value: &str) -> (r: Self)
        ensures
            r@ == (SmtpConfigView { password: value@, ..self@ }),
    {
        let mut config = self;
        config.password = SecretText::new(value);
        config
    }

    /// The same configuration with another port.
    pub fn port(self, value: u16) -> (r: Self)
        ensures
            r@ == (SmtpConfigView { port: value, ..self@ }),
    {
        let mut config = self;
        config.port = value;
        config
    }

    /// The same configuration with another way to secure the connection.
    pub fn tls(self, value: TlsMode) -> (r: Self)
        ensures
            r@ == (SmtpConfigView { tls: value, ..self@ }),
    {
        let mut config = self;
        config.tls = value;
        config
    }
}

impl From<SmtpConfig> for EmailConfiguration {
    fn from(value: SmtpConfig) -> (r: Self) {
        EmailConfiguration::SMTP(value)
    }
}

impl FromSpecImpl<SmtpConfig> for EmailConfiguration {
    open spec fn obeys_from_spec() -> bool {
        true
    }

    open spec fn from_spec(value: SmtpConfig) -> Self {
        EmailConfiguration::SMTP(value)
    }
}

/// The user name that credentials were made with.
pub uninterp spec fn credentials_identity(credentials: Credentials) -> Seq<char>;

/// The password that credentials were made with.
pub uninterp spec fn credentials_secret(credentials: Credentials) -> Seq<char>;

/// `Credentials::new` keeps the user name and the password as they are given.
pub assume_specification[ Credentials::new ](username: String, password: String) -> (r:
    Credentials)
    ensures
        credentials_identity(r) == username@,
        credentials_secret(r) == password@,
;

/// How the relay is to be reached. The connection itself is opened by the
/// caller, when the message is submitted.
#[derive(Debug)]
pub struct TransportPlan {
    /// Which of the three ways secures the connection.
    pub security: TlsMode,
    /// The relay's host name.
    pub relay: String,
    /// The relay's port.
    pub port: u16,
    /// What to authenticate with, if at all.
    pub credentials: Option<Credentials>,
    /// The limit on connecting, in seconds, where it is not the transport's own.
    pub timeout_secs: Option<u64>,
}

/// The mathematical value of a [`TransportPlan`]; credentials are a user name
/// and a password.
pub struct TransportPlanView {
    pub security: TlsMode,
    pub relay: Seq<char>,
    pub port: u16,
    pub credentials: Option<(Seq<char>, Seq<char>)>,
    pub timeout_secs: Option<u64>,
}

impl View for TransportPlan {
    type V = TransportPlanView;

    open spec fn view(&self) -> TransportPlanView {
        TransportPlanView {
            security: self.security,
            relay: self.relay@,
            port: self.port,
            credentials: match self.credentials {
                Some(c) => Some((credentials_identity(c), credentials_secret(c))),
                None => None,
            },
            timeout_secs: self.timeout_secs,
        }
    }
}

/// The transport that a configuration asks for. A local relay gets no
/// credentials, whatever the user name and password are, and ten seconds to
/// connect. The two encrypted modes get the credentials and the transport's
/// own time limit.
pub open spec fn transport_for(config: SmtpConfigView) -> TransportPlanView {
    TransportPlanView {
        security: config.tls,
        relay: config.relay,
        port: config.port,
        credentials: if config.tls == TlsMode::Local {
            None
        } else {
            Some((config.username, config.password))
        },
        timeout_secs: if config.tls == TlsMode::Local {
            Some(LOCAL_TIMEOUT_SECS)
        } else {
            None
        },
    }
}

/// The transport of a local relay does not depend on the user name or the
/// password, and holds no credentials.
pub proof fn lemma_local_transport_needs_no_credentials(a: SmtpConfigView, b: SmtpConfigView)
    requires
        a.tls == TlsMode::Local,
        b == (SmtpConfigView { username: b.username, password: b.password, ..a }),
    ensures
        transport_for(a).credentials is None,
        transport_for(a) == transport_for(b),
{
}

/// What an SMTP message is made of, before any address is checked.
#[derive(Debug)]
pub struct SmtpDraft {
    pub from: EmailAddress,
    pub reply_to: EmailAddress,
    pub to: Vec<EmailAddress>,
    pub subject: String,
    pub plain: String,
    pub html: String,
}

/// The mathematical value of an [`SmtpDraft`].
pub struct SmtpDraftView {
    pub from: EmailAddressView,
    pub reply_to: EmailAddressView,
    pub to: Seq<EmailAddressView>,
    pub subject: Seq<char>,
    pub plain: Seq<char>,
    pub html: Seq<char>,
}

impl View for SmtpDraft {
    type V = SmtpDraftView;

    open spec fn view(&self) -> SmtpDraftView {
        SmtpDraftView {
            from: self.from@,
            reply_to: self.reply_to@,
            to: address_views(self.to@),
            subject: self.subject@,
            plain: self.plain@,
            html: self.html@,
        }
    }
}

impl SmtpDraftView {
    /// The emails that have to parse, in the order in which they are parsed:
    /// the sender's, the reply address, then each recipient's.
    pub open spec fn emails(self) -> Seq<Seq<char>> {
        seq![self.from.email, self.reply_to.email] + self.to.map_values(
            |a: EmailAddressView| a.email,
        )
    }
}

/// The draft of `email` as `sender` sends it: `From` and `Reply-To` are the
/// sender, there is one `To` for each recipient, in order, and the subject and
/// the two bodies are the message's. The sender named in `email` is not used.
pub open spec fn draft_of(sender: EmailAddressView, email: EmailObjectView) -> SmtpDraftView {
    SmtpDraftView {
        from: sender,
        reply_to: sender,
        to: email.to,
        subject: email.subject,
        plain: email.plain,
        html: email.html,
    }
}

/// Whether a builder holds a `To`, `Cc` or `Bcc` header, or an envelope.
pub uninterp spec fn names_recipient(builder: MessageBuilder) -> bool;

/// `lettre::Message::builder`: a builder that holds no header yet, so no
/// recipient either.
pub assume_specification[ Message::builder ]() -> (r: MessageBuilder)
    ensures
        !names_recipient(r),
;

/// `MessageBuilder::from`: the builder with the mailbox added to `From`.
/// Nothing else is touched.
pub assume_specification[ MessageBuilder::from ](
    builder: MessageBuilder,
    mbox: lettre::message::Mailbox,
) -> (r: MessageBuilder)
    ensures
        names_recipient(r) == names_recipient(builder),
;

/// `MessageBuilder::reply_to`: the builder with the mailbox added to
/// `Reply-To`. Nothing else is touched.
pub assume_specification[ MessageBuilder::reply_to ](
    builder: MessageBuilder,
    mbox: lettre::message::Mailbox,
) -> (r: MessageBuilder)
    ensures
        names_recipient(r) == names_recipient(builder),
;

/// `MessageBuilder::to`: the builder with the mailbox added to `To`.
pub assume_specification[ MessageBuilder::to ](
    builder: MessageBuilder,
    mbox: lettre::message::Mailbox,
) -> MessageBuilder;

/// `MessageBuilder::subject`: the builder with the subject set. Nothing else
/// is touched.
pub assume_specification<S: Into<String>>[ MessageBuilder::subject::<S> ](
    builder: MessageBuilder,
    subject: S,
) -> (r: MessageBuilder)
    ensures
        names_recipient(r) == names_recipient(builder),
;

/// `MultiPart::alternative_plain_html`: a body of two alternatives, the plain
/// text and the HTML.
#[verifier::external_body]
fn alternative_plain_html(plain: String, html: String) -> MultiPart {
    MultiPart::alternative_plain_html(plain, html)
}

/// `MessageBuilder::multipart`, with the error rendered by its `Display`: the
/// finished message, or why the builder would not finish it. A message
/// without a recipient is never finished: its envelope cannot be made.
#[verifier::external_body]
fn multipart(builder: MessageBuilder, part: MultiPart) -> (r: Result<Message, String>)
    ensures
        !names_recipient(builder) ==> r is Err,
{
    match builder.multipart(part) {
        Ok(message) => Ok(message),
        Err(error) => Err(format!("{}", error)),
    }
}

/// What building a draft gives: the fault of the first address that does not
/// parse; else, for a draft without recipients, the builder's refusal; else
/// the message or the builder's refusal, as the builder decides.
pub open spec fn built(draft: SmtpDraftView, outcome: Result<Message, EmailError>) -> bool {
    match first_fault(draft.emails()) {
        Some(fault) => outcome matches Err(e) && e@ == EmailErrorView::AddressError(fault),
        None => if draft.to.len() == 0 {
            outcome matches Err(EmailError::Lettre(_))
        } else {
            outcome is Ok || outcome matches Err(EmailError::Lettre(_))
        },
    }
}

/// A built message and the transport that takes it to the relay.
#[derive(Debug)]
pub struct SmtpDispatch {
    pub transport: TransportPlan,
    pub message: Message,
}

/// What is reported once the builder has answered: the message with its
/// transport where it was built, the builder's refusal otherwise.
pub fn dispatch_built(transport: TransportPlan, built: Result<Message, String>) -> (r: Result<
    Delivery,
    EmailError,
>)
    ensures
        match built {
            Ok(message) => r matches Ok(Delivery::Smtp(dispatch)) && dispatch.transport
                == transport && dispatch.message == message,
            Err(refusal) => r matches Err(e) && e@ == EmailErrorView::Lettre(refusal@),
        },
{
    match built {
        Ok(message) => Ok(Delivery::Smtp(SmtpDispatch { transport, message })),
        Err(refusal) => Err(EmailError::Lettre(refusal)),
    }
}

impl SmtpDispatch {
    /// Judges what came of submitting the message: `Ok` where the relay took
    /// it, and otherwise the transport's words as an SMTP error. Nothing is
    /// retried.
    pub fn conclude(outcome: Result<(), String>) -> (r: Result<(), EmailError>)
        ensures
            match outcome {
                Ok(()) => r is Ok,
                Err(detail) => r matches Err(e) && e@ == EmailErrorView::SmtpError(detail@),
            },
    {
        match outcome {
            Ok(()) => Ok(()),
            Err(detail) => Err(EmailError::SmtpError(detail)),
        }
    }
}

impl SmtpDraft {
    /// Parses the addresses in order and hands the parts to the message
    /// builder. The first address that does not parse ends the attempt with
    /// its fault. Where all parse, the builder decides, and it refuses a
    /// message without recipients.
    pub fn build(self) -> (r: Result<Message, EmailError>)
        ensures
            built(self@, r),
    {
        let ghost emails = self@.emails();
        let from = match self.from.try_into_mailbox() {
            Ok(mailbox) => mailbox,
            Err(e) => {
                proof {
                    lemma_first_fault_at(emails, 0);
                }
                return Err(e);
            },
        };
        let reply_to = match self.reply_to.try_into_mailbox() {
            Ok(mailbox) => mailbox,
            Err(e) => {
                proof {
                    lemma_first_fault_at(emails, 1);
                }
                return Err(e);
            },
        };
        let mut builder = Message::builder().from(from).reply_to(reply_to);
        let count = self.to.len();
        let mut i: usize = 0;
        while i < count
            invariant
                count == self.to.len(),
                i <= count,
                emails == self@.emails(),
                forall|j: int| 0 <= j < i + 2 ==> address_fault(#[trigger] emails[j]) is None,
                i == 0 ==> !names_recipient(builder),
            decreases count - i,
        {
            assert(emails[i + 2] == self.to[i as int]@.email);
            match self.to[i].clone().try_into_mailbox() {
                Ok(mailbox) => {
                    builder = builder.to(mailbox);
                },
                Err(e) => {
                    proof {
                        lemma_first_fault_at(emails, i + 2);
                    }
                    return Err(e);
                },
            }
            i += 1;
        }
        proof {
            lemma_first_fault_none(emails);
        }
        let body = alternative_plain_html(self.plain, self.html);
        match multipart(builder.subject(self.subject), body) {
            Ok(message) => Ok(message),
            Err(refusal) => Err(EmailError::Lettre(refusal)),
        }
    }
}

/// The client of the SMTP backend. It keeps no connection: each message gets
/// a transport of its own.
#[derive(Debug)]
pub struct SmtpClient {
    config: SmtpConfig,
}

impl Clone for SmtpClient {
    fn clone(&self) -> (r: Self)
        ensures
            r.config_view() == self.config_view(),
    {
        SmtpClient { config: self.config.clone() }
    }
}

impl Default for SmtpClient {
    fn default() -> (r: Self)
        ensures
            r.config_view() == SmtpConfig::default_view(),
    {
        SmtpClient { config: SmtpConfig::default() }
    }
}

impl SmtpClient {
    /// What the client was configured with.
    pub closed spec fn config_view(&self) -> SmtpConfigView {
        self.config@
    }

    /// A client that holds `config`. Nothing is connected yet.
    pub fn new(config: SmtpConfig) -> (r: Self)
        ensures
            r.config_view() == config@,
    {
        SmtpClient { config }
    }

    /// How the next message reaches the relay. The password is exposed here,
    /// and only where the connection is authenticated.
    pub fn get_transport(&self) -> (r: TransportPlan)
        ensures
            r@ == transport_for(self.config_view()),
    {
        let settings = &self.config;
        match settings.tls {
            TlsMode::Local => TransportPlan {
                security: TlsMode::Local,
                relay: settings.relay.clone(),
                port: settings.port,
                credentials: None,
                timeout_secs: Some(LOCAL_TIMEOUT_SECS),
            },
            mode => TransportPlan {
                security: mode,
                relay: settings.relay.clone(),
                port: settings.port,
                credentials: Some(
                    Credentials::new(
                        settings.username.clone(),
                        settings.password.expose_secret().to_owned(),
                    ),
                ),
                timeout_secs: None,
            },
        }
    }

    /// The parts of the message that goes out for `email`.
    pub fn compose(&self, email: EmailObject) -> (r: SmtpDraft)
        ensures
            r@ == draft_of(self.config_view().sender, email@),
    {
        SmtpDraft {
            from: self.config.sender.clone(),
            reply_to: self.config.sender.clone(),
            to: email.to,
            subject: email.subject,
            plain: email.plain,
            html: email.html,
        }
    }
}

impl EmailTrait for SmtpClient {
    open spec fn sender_view(&self) -> EmailAddressView {
        self.config_view().sender
    }

    open spec fn dispatches(
        &self,
        email: EmailObjectView,
        outcome: Result<Delivery, EmailError>,
    ) -> bool {
        match first_fault(draft_of(self.config_view().sender, email).emails()) {
            Some(fault) => outcome matches Err(e) && e@ == EmailErrorView::AddressError(fault),
            None => {
                ||| {
                    &&& email.to.len() > 0
                    &&& outcome matches Ok(Delivery::Smtp(dispatch))
                    &&& dispatch.transport@ == transport_for(self.config_view())
                }
                ||| outcome matches Err(EmailError::Lettre(_))
            },
        }
    }

    fn get_sender(&self) -> (r: EmailAddress) {
        self.config.sender.clone()
    }

    /// Plans the transport and builds the message. Fails where an address
    /// does not parse or the builder refuses the message. Nothing is retried
    /// and nothing is sent: the caller submits the message.
    fn send_emails(&self, email: EmailObject) -> (r: Result<Delivery, EmailError>) {
        let transport = self.get_transport();
        match self.compose(email).build() {
            Ok(message) => dispatch_built(transport, Ok(message)),
            Err(e) => Err(e),
        }
    }
}

} // verus!
