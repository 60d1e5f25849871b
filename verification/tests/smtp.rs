use email_clients::clients::get_email_client;
use email_clients::clients::smtp::{
    dispatch_built, SmtpClient, SmtpConfig, SmtpDispatch, TlsMode, LOCAL_TIMEOUT_SECS,
};
use email_clients::configuration::EmailConfiguration;
use email_clients::delivery::Delivery;
use email_clients::email::{EmailAddress, EmailObject};
use email_clients::errors::EmailError;
use email_clients::secret::SecretText;
use email_clients::traits::EmailTrait;
use lettre::message::header;
use lettre::message::{Mailbox, Mailboxes};
use lettre::transport::smtp::authentication::Credentials;

fn sample() -> EmailObject {
    EmailObject {
        sender: "test@example.com".into(),
        to: vec![EmailAddress {
            name: "Mail".to_string(),
            email: "mail@example.com".to_string(),
        }],
        subject: "New subject".to_string(),
        plain: "Body of email".to_string(),
        html: "Body of email in <b>HTML</b>".to_string(),
    }
}

fn dispatched(outcome: Result<Delivery, EmailError>) -> SmtpDispatch {
    match outcome.expect("Unable to send email") {
        Delivery::Smtp(dispatch) => dispatch,
        _ => panic!("the SMTP backend submits a message"),
    }
}

fn failure(outcome: Result<Delivery, EmailError>) -> EmailError {
    match outcome {
        Err(e) => e,
        Ok(_) => panic!("the message must be refused"),
    }
}

#[test]
fn smtp_send_email_saved_in_memory() {
    let recipient_mail = "mail@example.com".to_string();
    let mail_subject = "New subject".to_string();
    let mail_body = "Body of email".to_string();
    let mail_html = "Body of email in <b>HTML</b>".to_string();

    let smtp_config = SmtpConfig {
        sender: "from@example.com".to_string().into(),
        relay: "127.0.0.1".to_string(),
        username: "".to_string(),
        password: SecretText::new(""),
        port: 2525,
        tls: TlsMode::Local,
    };
    let email_configuration = EmailConfiguration::SMTP(smtp_config);
    let email_client = get_email_client(email_configuration);
    let email = EmailObject {
        sender: "test@example.com".to_string().into(),
        to: vec![EmailAddress {
            name: "Mail".to_string(),
            email: recipient_mail.clone(),
        }],
        subject: mail_subject.clone(),
        plain: mail_body.clone(),
        html: mail_html.clone(),
    };

    let dispatch = dispatched(email_client.unwrap().send_emails(email));

    assert_eq!(dispatch.transport.security, TlsMode::Local);
    assert_eq!(dispatch.transport.relay, "127.0.0.1");
    assert_eq!(dispatch.transport.port, 2525);
    assert!(dispatch.transport.credentials.is_none());
    assert_eq!(dispatch.transport.timeout_secs, Some(10));

    let envelope = dispatch.message.envelope();
    assert_eq!(
        envelope.from().map(|a| a.to_string()),
        Some("from@example.com".to_string())
    );
    let to: Vec<String> = envelope.to().iter().map(|a| a.to_string()).collect();
    assert_eq!(to, vec![recipient_mail]);

    let text = String::from_utf8(dispatch.message.formatted()).expect("an ASCII message");
    assert!(text.contains("Subject: New subject\r\n"));
    assert!(text.contains("multipart/alternative"));
    assert!(text.contains("Content-Type: text/plain"));
    assert!(text.contains("Content-Type: text/html"));
    assert!(text.contains(&mail_body));
    assert!(text.contains(&mail_html));

    assert!(SmtpDispatch::conclude(Ok(())).is_ok());
}

#[test]
fn smtp_message_headers() {
    let sender = EmailAddress {
        name: "Sender".to_string(),
        email: "from@example.com".to_string(),
    };
    let client = SmtpClient::new(SmtpConfig::default().sender(sender));
    let mut email = sample();
    email.to.push(EmailAddress::from("second@example.com"));
    let dispatch = dispatched(client.send_emails(email));
    let headers = dispatch.message.headers();

    let from: Vec<Mailbox> =
        Mailboxes::from(headers.get::<header::From>().expect("a From header")).into();
    assert_eq!(from.len(), 1);
    assert_eq!(from[0].name, Some("Sender".to_string()));
    assert_eq!(from[0].email.to_string(), "from@example.com");

    let reply_to: Vec<Mailbox> =
        Mailboxes::from(headers.get::<header::ReplyTo>().expect("a Reply-To header")).into();
    assert_eq!(reply_to, from);

    let to: Vec<Mailbox> =
        Mailboxes::from(headers.get::<header::To>().expect("a To header")).into();
    assert_eq!(to.len(), 2);
    assert_eq!(to[0].name, Some("Mail".to_string()));
    assert_eq!(to[0].email.to_string(), "mail@example.com");
    assert_eq!(to[1].email.to_string(), "second@example.com");

    let subject = headers.get::<header::Subject>().expect("a subject");
    assert_eq!(subject.as_ref(), "New subject");

    let envelope = dispatch.message.envelope();
    let recipients: Vec<String> = envelope.to().iter().map(|a| a.to_string()).collect();
    assert_eq!(recipients, vec!["mail@example.com", "second@example.com"]);
}

#[test]
fn smtp_draft_takes_the_configured_sender() {
    let client = SmtpClient::new(SmtpConfig::default().sender("from@example.com"));
    let draft = client.compose(sample());
    assert_eq!(draft.from, EmailAddress::from("from@example.com"));
    assert_eq!(draft.reply_to, EmailAddress::from("from@example.com"));
    assert_eq!(draft.to, sample().to);
    assert_eq!(draft.subject, "New subject");
    assert_eq!(draft.plain, "Body of email");
    assert_eq!(draft.html, "Body of email in <b>HTML</b>");
    assert!(draft.build().is_ok());
}

#[test]
fn smtp_rejects_a_sender_that_does_not_parse() {
    let client = SmtpClient::default();
    let error = failure(client.send_emails(sample()));
    assert!(matches!(&error, EmailError::AddressError(fault) if fault == "Missing domain or user"));
    assert_eq!(error.to_string(), "Invalid address Missing domain or user");
    assert_eq!(client.get_sender(), EmailAddress::default());
}

#[test]
fn smtp_rejects_the_first_recipient_that_does_not_parse() {
    let client = SmtpClient::new(SmtpConfig::default().sender("from@example.com"));
    let mut email = sample();
    email.to.push(EmailAddress::from("a b@example.com"));
    email.to.push(EmailAddress::from("nobody"));
    let error = failure(client.send_emails(email));
    assert!(matches!(&error, EmailError::AddressError(fault) if fault == "Invalid email user"));

    let mut email = sample();
    email.to.insert(0, EmailAddress::from("user@exa mple.com"));
    let error = failure(client.send_emails(email));
    assert!(matches!(&error, EmailError::AddressError(fault) if fault == "Invalid email domain"));
}

#[test]
fn smtp_sender_fault_comes_before_recipient_faults() {
    let client = SmtpClient::new(SmtpConfig::default().sender("a b@example.com"));
    let mut email = sample();
    email.to = vec![EmailAddress::from("nobody")];
    let error = failure(client.send_emails(email));
    assert!(matches!(&error, EmailError::AddressError(fault) if fault == "Invalid email user"));
}

#[test]
fn smtp_without_recipients_is_refused_by_the_builder() {
    let client = SmtpClient::new(SmtpConfig::default().sender("from@example.com"));
    let mut email = sample();
    email.to.clear();
    let error = failure(client.send_emails(email));
    assert!(matches!(
        &error,
        EmailError::Lettre(refusal) if refusal == "missing destination address, invalid envelope"
    ));
    assert_eq!(
        error.to_string(),
        "Failed to send email missing destination address, invalid envelope"
    );
    assert!(client.send_emails(sample()).is_ok());
}

#[test]
fn smtp_local_transport_needs_no_credentials() {
    let bare = SmtpClient::new(SmtpConfig::default().relay("127.0.0.1").port(2525));
    let plan = bare.get_transport();
    assert_eq!(plan.security, TlsMode::Local);
    assert_eq!(plan.relay, "127.0.0.1");
    assert_eq!(plan.port, 2525);
    assert!(plan.credentials.is_none());
    assert_eq!(plan.timeout_secs, Some(LOCAL_TIMEOUT_SECS));
    assert_eq!(LOCAL_TIMEOUT_SECS, 10);

    let with_login = SmtpClient::new(
        SmtpConfig::default()
            .relay("127.0.0.1")
            .port(2525)
            .username("user")
            .password("secret"),
    );
    let plan = with_login.get_transport();
    assert_eq!(plan.security, TlsMode::Local);
    assert!(plan.credentials.is_none());
    assert_eq!(plan.timeout_secs, Some(10));
}

#[test]
fn smtp_encrypted_transports_carry_the_credentials() {
    for mode in [TlsMode::Tls, TlsMode::StartTls] {
        let client = SmtpClient::new(
            SmtpConfig::default()
                .relay("smtp.example.com")
                .port(465)
                .username("user")
                .password("secret")
                .tls(mode),
        );
        let plan = client.get_transport();
        assert_eq!(plan.security, mode);
        assert_eq!(plan.relay, "smtp.example.com");
        assert_eq!(plan.port, 465);
        assert_eq!(
            plan.credentials,
            Some(Credentials::new("user".to_string(), "secret".to_string()))
        );
        assert_eq!(plan.timeout_secs, None);
        assert!(!format!("{:?}", plan).contains("secret"));
    }
}

#[test]
fn smtp_config_default_and_builders() {
    let config = SmtpConfig::default();
    assert_eq!(config.sender, EmailAddress::default());
    assert_eq!(config.relay, "localhost");
    assert_eq!(config.username, "");
    assert_eq!(config.password.expose_secret(), "");
    assert_eq!(config.port, 25);
    assert_eq!(config.tls, TlsMode::Local);
    assert_eq!(TlsMode::default(), TlsMode::Local);

    let config = SmtpConfig::default().sender("Test Sender");
    assert_eq!(config.sender.to_string(), "Test Sender");
    let config = config.relay("Test Relay");
    assert_eq!(config.relay, "Test Relay");
    let config = config.username("Test Username");
    assert_eq!(config.username, "Test Username");
    let config = config.password("Test Password");
    assert_eq!(config.password.expose_secret(), "Test Password");
    let config = config.port(1234);
    assert_eq!(config.port, 1234);
    let config = config.tls(TlsMode::Tls);
    assert_eq!(config.tls, TlsMode::Tls);

    assert_eq!(config.sender.to_string(), "Test Sender");
    assert_eq!(config.relay, "Test Relay");
    assert_eq!(config.username, "Test Username");
    assert_eq!(config.password.expose_secret(), "Test Password");
    assert_eq!(config.port, 1234);

    let copy = config.clone();
    assert_eq!(copy.sender, config.sender);
    assert_eq!(copy.relay, config.relay);
    assert_eq!(copy.username, config.username);
    assert_eq!(copy.password.expose_secret(), "Test Password");
    assert_eq!(copy.port, 1234);
    assert_eq!(copy.tls, TlsMode::Tls);

    assert!(!format!("{:?}", config).contains("Test Password"));
    let configuration = EmailConfiguration::from(config);
    assert!(matches!(configuration, EmailConfiguration::SMTP(_)));
    assert!(!format!("{:?}", configuration).contains("Test Password"));
    let client = get_email_client(configuration);
    assert!(!format!("{:?}", client).contains("Test Password"));
}

#[test]
fn smtp_outcomes() {
    let client = SmtpClient::new(SmtpConfig::default().sender("from@example.com"));
    let dispatch = dispatched(client.send_emails(sample()));
    assert!(SmtpDispatch::conclude(Ok(())).is_ok());
    let error = SmtpDispatch::conclude(Err("Connection error: Connection refused".to_string()))
        .unwrap_err();
    assert!(matches!(
        &error,
        EmailError::SmtpError(detail) if detail == "Connection error: Connection refused"
    ));
    assert_eq!(
        error.to_string(),
        "Failed to send email Connection error: Connection refused"
    );

    let plan = client.get_transport();
    let refused = failure(dispatch_built(plan, Err("there can only be one source address".to_string())));
    assert!(matches!(
        &refused,
        EmailError::Lettre(refusal) if refusal == "there can only be one source address"
    ));
    let built = dispatched(dispatch_built(client.get_transport(), Ok(dispatch.message)));
    assert_eq!(built.transport.relay, "localhost");
    assert_eq!(built.transport.port, 25);
}

#[test]
fn smtp_client_copies_keep_the_configuration() {
    let client = SmtpClient::new(SmtpConfig::default().sender("from@example.com").port(2525));
    let copy = client.clone();
    assert_eq!(copy.get_sender(), client.get_sender());
    assert_eq!(copy.get_transport().port, 2525);
    assert_eq!(SmtpClient::default().get_transport().port, 25);
}
