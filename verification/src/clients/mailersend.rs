//! The MailerSend backend: the message is posted as JSON to the provider's
//! HTTP API, authorised by a bearer token.
use crate::configuration::EmailConfiguration;
use crate::delivery::Delivery;
use crate::email::{
    address_views, EmailAddress, EmailAddressView, EmailObject, EmailObjectView,
};
use crate::errors::{EmailError, EmailErrorView};
use crate::secret::SecretText;
use crate::text::{join, lemma_trim_end_slashes_idempotent, trim_end_slashes, trim_trailing_slashes};
use crate::traits::EmailTrait;
use reqwest::header::{HeaderMap, HeaderValue};
use vstd::prelude::*;
use vstd::std_specs::convert::FromSpecImpl;

verus! {

#[verifier::external_type_specification]
#[verifier::external_body]
pub struct ExHeaderValue(HeaderValue);

#[verifier::external_type_specification]
#[verifier::external_body]
#[verifier::reject_recursive_types(T)]
pub struct ExHeaderMap<T>(HeaderMap<T>);

/// The provider's endpoint.
pub open spec fn base_url_text() -> Seq<char> {
    "https://api.mailersend.com/v1"@
}

/// The provider's endpoint, which a configuration has unless told otherwise.
pub fn default_base_url() -> (r: String)
    ensures
        r@ == base_url_text(),
{
    "https://api.mailersend.com/v1".to_owned()
}

/// The provider's endpoint is in trimmed form.
pub proof fn lemma_base_url_is_trimmed()
    ensures
        trim_end_slashes(base_url_text()) == base_url_text(),
{
    reveal_strlit("https://api.mailersend.com/v1");
    assert(base_url_text().len() == 29);
    assert(base_url_text().last() == '1');
}

/// What the MailerSend backend needs: the sender, where the API is, and the
/// token that authorises the call. The token is never shown. The base URL is
/// kept without `/` at its end.
#[derive(Debug)]
pub struct MailerSendConfig {
    sender: EmailAddress,
    base_url: String,
    api_token: SecretText,
}

/// The mathematical value of a [`MailerSendConfig`].
pub struct MailerSendConfigView {
    pub sender: EmailAddressView,
    pub base_url: Seq<char>,
    pub api_token: Seq<char>,
}

impl View for MailerSendConfig {
    type V = MailerSendConfigView;

    closed spec fn view(&self) -> MailerSendConfigView {
        MailerSendConfigView {
            sender: self.sender@,
            base_url: self.base_url@,
            api_token: self.api_token@,
        }
    }
}

impl Clone for MailerSendConfig {
    fn clone(&self) -> (r: Self)
        ensures
            r@ == self@,
    {
        proof {
            use_type_invariant(self);
        }
        MailerSendConfig {
            sender: self.sender.clone(),
            base_url: self.base_url.clone(),
            api_token: self.api_token.clone(),
        }
    }
}

impl Default for MailerSendConfig {
    /// An empty sender, the provider's endpoint and an empty token.
    fn default() -> (r: Self)
        ensures
            r@ == (MailerSendConfigView {
                sender: EmailAddressView::empty(),
                base_url: base_url_text(),
                api_token: Seq::empty(),
            }),
    {
        proof {
            lemma_base_url_is_trimmed();
        }
        MailerSendConfig {
            sender: EmailAddress::default(),
            base_url: default_base_url(),
            api_token: SecretText::default(),
        }
    }
}

impl MailerSendConfig {
    #[verifier::type_invariant]
    spec fn base_url_is_trimmed(self) -> bool {
        trim_end_slashes(self.base_url@) == self.base_url@
    }

    /// The same configuration with another sender, converted as `T` converts.
    pub fn sender<T: Into<EmailAddress>>(self, value: T) -> (r: Self)
        ensures
            call_ensures(T::into, (value,), r.held_sender()),
            r@ == (MailerSendConfigView { sender: r.held_sender()@, ..self@ }),
    {
        proof {
            use_type_invariant(&self);
        }
        MailerSendConfig { sender: value.into(), base_url: self.base_url, api_token: self.api_token }
    }

    /// The same configuration with another base URL: `value` without the `/`
    /// characters at its end.
    pub fn base_url(self, value: &str) -> (r: Self)
        ensures
            r@ == (MailerSendConfigView { base_url: trim_end_slashes(value@), ..self@ }),
    {
        proof {
            lemma_trim_end_slashes_idempotent(value@);
        }
        MailerSendConfig {
            sender: self.sender,
            base_url: trim_trailing_slashes(value),
            api_token: self.api_token,
        }
    }

    /// The same configuration with another token.
    pub fn api_token(self, value: &str) -> (r: Self)
        ensures
            r@ == (MailerSendConfigView { api_token: value@, ..self@ }),
    {
        proof {
            use_type_invariant(&self);
        }
        MailerSendConfig {
            sender: self.sender,
            base_url: self.base_url,
            api_token: SecretText::new(value),
        }
    }

    /// The base URL, which never ends in `/`.
    pub fn get_base_url(&self) -> (r: String)
        ensures
            r@ == self@.base_url,
            trim_end_slashes(r@) == r@,
    {
        proof {
            use_type_invariant(self);
        }
        self.base_url.clone()
    }

    /// The sender as it is held.
    pub closed spec fn held_sender(&self) -> EmailAddress {
        self.sender
    }

    /// The sender.
    pub fn get_sender(&self) -> (r: EmailAddress)
        ensures
            r@ == self@.sender,
    {
        self.sender.clone()
    }
}

impl From<MailerSendConfig> for EmailConfiguration {
    fn from(value: MailerSendConfig) -> (r: Self) {
        EmailConfiguration::Mailersend(value)
    }
}

impl FromSpecImpl<MailerSendConfig> for EmailConfiguration {
    open spec fn obeys_from_spec() -> bool {
        true
    }

    open spec fn from_spec(value: MailerSendConfig) -> Self {
        EmailConfiguration::Mailersend(value)
    }
}

/// The body of the request, under the names that the API gives its fields.
#[derive(Debug)]
pub struct EmailPayload {
    pub from: EmailAddress,
    pub to: Vec<EmailAddress>,
    pub subject: String,
    pub text: String,
    pub html: String,
}

/// The mathematical value of an [`EmailPayload`].
pub struct EmailPayloadView {
    pub from: EmailAddressView,
    pub to: Seq<EmailAddressView>,
    pub subject: Seq<char>,
    pub text: Seq<char>,
    pub html: Seq<char>,
}

impl View for EmailPayload {
    type V = EmailPayloadView;

    open spec fn view(&self) -> EmailPayloadView {
        EmailPayloadView {
            from: self.from@,
            to: address_views(self.to@),
            subject: self.subject@,
            text: self.text@,
            html: self.html@,
        }
    }
}

/// The payload of a message: the message's own sender and recipients as
/// structured addresses, its subject, the plain body as `text` and the HTML
/// body as `html`.
pub open spec fn payload_of(email: EmailObjectView) -> EmailPayloadView {
    EmailPayloadView {
        from: email.sender,
        to: email.to,
        subject: email.subject,
        text: email.plain,
        html: email.html,
    }
}

impl FromSpecImpl<EmailObject> for EmailPayload {
    open spec fn obeys_from_spec() -> bool {
        true
    }

    open spec fn from_spec(value: EmailObject) -> Self {
        EmailPayload {
            from: value.sender,
            to: value.to,
            subject: value.subject,
            text: value.plain,
            html: value.html,
        }
    }
}

impl From<EmailObject> for EmailPayload {
    fn from(value: EmailObject) -> (r: Self)
        ensures
            r@ == payload_of(value@),
    {
        EmailPayload {
            from: value.sender,
            to: value.to,
            subject: value.subject,
            text: value.plain,
            html: value.html,
        }
    }
}

/// Whether a character may stand in the value of an HTTP header: a tab, or
/// anything from the space on but the delete character.
pub open spec fn header_char_ok(c: char) -> bool {
    c == '\t' || (c >= ' ' && c != '\x7f')
}

/// Whether a text can be the value of an HTTP header.
pub open spec fn header_text_ok(text: Seq<char>) -> bool {
    forall|i: int| 0 <= i < text.len() ==> header_char_ok(#[trigger] text[i])
}

/// The text that a header value was made from.
pub uninterp spec fn header_value_text(value: HeaderValue) -> Seq<char>;

/// For each header name that a map holds, the text of the value it gives for it.
pub uninterp spec fn header_values(headers: HeaderMap) -> Map<Seq<char>, Seq<char>>;

/// `HeaderValue::from_str`: a value that holds `text`, or nothing where some
/// byte of `text` is a control character other than the tab. Every byte of a
/// character beyond ASCII is above the control range, so the test is the same
/// on characters.
#[verifier::external_body]
fn header_value(text: &str) -> (r: Option<HeaderValue>)
    ensures
        r is Some <==> header_text_ok(text@),
        r matches Some(value) ==> header_value_text(value) == text@,
{
    match HeaderValue::from_str(text) {
        Ok(value) => Some(value),
        Err(_) => None,
    }
}

/// Whether `held` is what a map without headers holds.
pub open spec fn no_header(held: Map<Seq<char>, Seq<char>>) -> bool {
    held == Map::<Seq<char>, Seq<char>>::empty()
}

/// Whether `held` is the header `authorization` with the value `text`, and no
/// other header.
pub open spec fn only_authorization(held: Map<Seq<char>, Seq<char>>, text: Seq<char>) -> bool {
    held == Map::<Seq<char>, Seq<char>>::empty().insert("authorization"@, text)
}

/// `HeaderMap::new`: a map without headers.
#[verifier::external_body]
fn no_headers() -> (r: HeaderMap)
    ensures
        no_header(header_values(r)),
{
    HeaderMap::new()
}

/// `HeaderMap::insert` under `reqwest::header::AUTHORIZATION`, on a map
/// without headers: the map then holds the one header, `authorization`.
#[verifier::external_body]
fn with_authorization(headers: HeaderMap, value: HeaderValue) -> (r: HeaderMap)
    requires
        no_header(header_values(headers)),
    ensures
        only_authorization(header_values(r), header_value_text(value)),
{
    let mut headers = headers;
    headers.insert(reqwest::header::AUTHORIZATION, value);
    headers
}

/// The method of a request to the API.
#[derive(Debug, Clone, Copy, PartialEq, Eq, Structural)]
pub enum HttpMethod {
    Post,
}

/// A request to the API, ready to be sent by the caller as JSON.
pub struct HttpRequest {
    pub method: HttpMethod,
    pub url: String,
    pub headers: HeaderMap,
    pub payload: EmailPayload,
}

/// What came of sending a request.
#[derive(Debug)]
pub enum HttpOutcome {
    /// A response arrived, with this status code and this status line, such
    /// as `401 Unauthorized`.
    Status(u16, String),
    /// No response arrived; holds the transport's words.
    Failed(String),
}

/// The header value that authorises a request with `token`.
pub open spec fn bearer(token: Seq<char>) -> Seq<char> {
    "Bearer "@ + token
}

/// The address of the API's email resource under `base_url`.
pub open spec fn email_url(base_url: Seq<char>) -> Seq<char> {
    base_url + "/email"@
}

/// Whether a status code is in the 2xx range.
pub open spec fn is_success(status: u16) -> bool {
    200 <= status < 300
}

/// What a response outside the 2xx range is reported as: the kind of status,
/// the status line in brackets, then the URL.
pub open spec fn status_failure(status: u16, status_line: Seq<char>, url: Seq<char>) -> Seq<
    char,
> {
    (if 400 <= status < 500 {
        "HTTP status client error"@
    } else if 500 <= status < 600 {
        "HTTP status server error"@
    } else {
        "HTTP status error"@
    }) + " ("@ + status_line + ") for url ("@ + url + ")"@
}

/// What sending reports for an outcome of the request to `url`.
pub open spec fn concluded(url: Seq<char>, outcome: HttpOutcome, r: Result<(), EmailError>) -> bool {
    match outcome {
        HttpOutcome::Status(status, line) => if is_success(status) {
            r is Ok
        } else {
            r matches Err(e) && e@ == EmailErrorView::ReqwestError(
                status_failure(status, line@, url),
            )
        },
        HttpOutcome::Failed(detail) => r matches Err(e) && e@ == EmailErrorView::ReqwestError(
            detail@,
        ),
    }
}

impl HttpRequest {
    /// Judges the outcome of the request. A response in the 2xx range is
    /// success. Any other response, and no response, is a failure that is
    /// handed to the caller as it is: nothing is retried.
    pub fn conclude(&self, outcome: HttpOutcome) -> (r: Result<(), EmailError>)
        ensures
            concluded(self.url@, outcome, r),
    {
        match outcome {
            HttpOutcome::Status(status, line) => {
                if 200 <= status && status < 300 {
                    Ok(())
                } else {
                    let kind = if 400 <= status && status < 500 {
                        "HTTP status client error"
                    } else if 500 <= status && status < 600 {
                        "HTTP status server error"
                    } else {
                        "HTTP status error"
                    };
                    let mut text = join(kind, " (");
                    text.append(line.as_str());
                    text.append(") for url (");
                    text.append(self.url.as_str());
                    text.append(")");
                    Err(EmailError::ReqwestError(text))
                }
            },
            HttpOutcome::Failed(detail) => Err(EmailError::ReqwestError(detail)),
        }
    }
}

/// The client of the MailerSend backend.
#[derive(Debug)]
pub struct MailerSendClient {
    config: MailerSendConfig,
}

impl Clone for MailerSendClient {
    fn clone(&self) -> (r: Self)
        ensures
            r.config_view() == self.config_view(),
    {
        MailerSendClient { config: self.config.clone() }
    }
}

impl Default for MailerSendClient {
    fn default() -> (r: Self)
        ensures
            r.config_view() == (MailerSendConfigView {
                sender: EmailAddressView::empty(),
                base_url: base_url_text(),
                api_token: Seq::empty(),
            }),
    {
        MailerSendClient { config: MailerSendConfig::default() }
    }
}

impl MailerSendClient {
    /// What the client was configured with.
    pub closed spec fn config_view(&self) -> MailerSendConfigView {
        self.config@
    }

    /// A client that holds `config`. Nothing is connected yet.
    pub fn new(config: MailerSendConfig) -> (r: Self)
        ensures
            r.config_view() == config@,
    {
        MailerSendClient { config }
    }

    /// Where the message is posted to.
    pub fn url(&self) -> (r: String)
        ensures
            r@ == email_url(self.config_view().base_url),
    {
        proof {
            use_type_invariant(&self.config);
        }
        let base = trim_trailing_slashes(self.config.base_url.as_str());
        join(base.as_str(), "/email")
    }

    /// The headers of the request: the one that authorises it. This is where
    /// the token is exposed. Fails where the token holds a character that no
    /// header value can hold.
    pub fn headers(&self) -> (r: Result<HeaderMap, EmailError>)
        ensures
            match r {
                Ok(headers) => header_text_ok(bearer(self.config_view().api_token))
                    && only_authorization(
                    header_values(headers),
                    bearer(self.config_view().api_token),
                ),
                Err(e) => !header_text_ok(bearer(self.config_view().api_token)) && e@
                    == EmailErrorView::MailsendHeaderError,
            },
    {
        let text = join("Bearer ", self.config.api_token.expose_secret());
        match header_value(text.as_str()) {
            Some(value) => Ok(with_authorization(no_headers(), value)),
            None => Err(EmailError::MailsendHeaderError),
        }
    }
}

impl EmailTrait for MailerSendClient {
    open spec fn sender_view(&self) -> EmailAddressView {
        self.config_view().sender
    }

    open spec fn dispatches(
        &self,
        email: EmailObjectView,
        outcome: Result<Delivery, EmailError>,
    ) -> bool {
        let token = self.config_view().api_token;
        if header_text_ok(bearer(token)) {
            &&& outcome matches Ok(Delivery::Http(request))
            &&& request.method == HttpMethod::Post
            &&& request.url@ == email_url(self.config_view().base_url)
            &&& only_authorization(header_values(request.headers), bearer(token))
            &&& request.payload@ == payload_of(email)
        } else {
            outcome matches Err(e) && e@ == EmailErrorView::MailsendHeaderError
        }
    }

    fn get_sender(&self) -> (r: EmailAddress) {
        self.config.get_sender()
    }

    /// Forms the request that posts `email`. Fails only where the token
    /// cannot be written into a header. Nothing is sent: the caller sends the
    /// request and hands the outcome to [`HttpRequest::conclude`].
    fn send_emails(&self, email: EmailObject) -> (r: Result<Delivery, EmailError>) {
        let payload = EmailPayload::from(email);
        match self.headers() {
            Ok(headers) => Ok(
                Delivery::Http(
                    HttpRequest { method: HttpMethod::Post, url: self.url(), headers, payload },
                ),
            ),
            Err(e) => Err(e),
        }
    }
}

} // verus!
