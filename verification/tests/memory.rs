use email_clients::clients::memory::{
    hand_off_result, HandOff, MemoryClient, MemoryConfig, CHANNEL_CAPACITY,
};
use email_clients::clients::EmailClient;
use email_clients::configuration::EmailConfiguration;
use email_clients::delivery::Delivery;
use email_clients::email::{EmailAddress, EmailObject};
use email_clients::errors::EmailError;
use email_clients::traits::EmailTrait;
use std::sync::mpsc;

fn sample() -> EmailObject {
    EmailObject {
        sender: "test@example.com".into(),
        to: vec![EmailAddress {
            name: "Mail".to_string(),
            email: "mail@example.com".to_string(),
        }],
        subject: "New subject".to_string(),
        plain: "Body of email".to_string(),
        html: "Body of email in <b>HTML</b>".to_string(),
    }
}

fn is_hand_off_failure(outcome: Result<Delivery, EmailError>) -> bool {
    match outcome {
        Err(EmailError::UnexpectedError(detail)) => detail == "Cannot send email in memory",
        _ => false,
    }
}

#[test]
fn memory_send_email_saved_in_memory() {
    let recipient_mail = "mail@example.com".to_string();
    let mail_subject = "New subject".to_string();
    let mail_body = "Body of email".to_string();
    let mail_html = "Body of email in <b>HTML</b>".to_string();

    let (tx, rx) = mpsc::sync_channel(2);

    let email_client = EmailClient::Memory(MemoryClient::with_tx(
        MemoryConfig::new("test@example.com".to_string()),
        tx,
    ));
    let email = EmailObject {
        sender: "test@example.com".to_string().into(),
        to: vec![EmailAddress {
            name: "Mail".to_string(),
            email: recipient_mail.clone(),
        }],
        subject: mail_subject.clone(),
        plain: mail_body.clone(),
        html: mail_html.clone(),
    };

    let delivery = email_client
        .unwrap()
        .send_emails(email)
        .expect("Unable to send email");
    assert!(matches!(delivery, Delivery::Done));

    let email = rx.recv().unwrap();

    assert_eq!(email.sender, EmailAddress::from("test@example.com"));
    assert_eq!(email.to[0].email, recipient_mail);
    assert_eq!(email.subject, mail_subject);
    assert_eq!(email.plain, mail_body);
    assert_eq!(email.to.len(), 1);
    assert_eq!(email.to[0].name, "Mail");
    assert_eq!(email.html, mail_html);
}

#[test]
fn memory_send_twice_enqueues_two_equal_messages() {
    let (tx, rx) = mpsc::sync_channel(2);
    let client = MemoryClient::with_tx(MemoryConfig::new("test@example.com"), tx);
    let message = sample();

    assert!(matches!(client.send_emails(message.clone()), Ok(Delivery::Done)));
    assert!(matches!(client.send_emails(message.clone()), Ok(Delivery::Done)));

    let first = rx.recv().unwrap();
    let second = rx.recv().unwrap();
    assert!(rx.try_recv().is_err());
    for received in [first, second] {
        assert_eq!(received.sender, message.sender);
        assert_eq!(received.to, message.to);
        assert_eq!(received.subject, message.subject);
        assert_eq!(received.plain, message.plain);
        assert_eq!(received.html, message.html);
    }
    assert_eq!(message.subject, "New subject");
    assert_eq!(message.to.len(), 1);
}

#[test]
fn memory_messages_arrive_in_the_order_sent() {
    let (tx, rx) = mpsc::sync_channel(3);
    let client = MemoryClient::with_tx(MemoryConfig::default(), tx);
    for subject in ["one", "two", "three"] {
        let mut email = sample();
        email.subject = subject.to_string();
        assert!(client.send_emails(email).is_ok());
    }
    assert_eq!(rx.recv().unwrap().subject, "one");
    assert_eq!(rx.recv().unwrap().subject, "two");
    assert_eq!(rx.recv().unwrap().subject, "three");
}

#[test]
fn memory_full_channel_fails_at_once_and_recovers() {
    let (tx, rx) = mpsc::sync_channel(1);
    let client = MemoryClient::with_tx(MemoryConfig::default(), tx);
    assert!(client.send_emails(sample()).is_ok());
    let failure = client.send_emails(sample());
    match &failure {
        Err(e) => assert_eq!(e.to_string(), "Unexpected error: Cannot send email in memory"),
        Ok(_) => panic!("the channel is full"),
    }
    assert!(is_hand_off_failure(failure));
    assert_eq!(rx.recv().unwrap().subject, "New subject");
    assert!(client.send_emails(sample()).is_ok());
}

#[test]
fn memory_without_receiver_fails() {
    let (tx, rx) = mpsc::sync_channel(2);
    drop(rx);
    let client = MemoryClient::with_tx(MemoryConfig::default(), tx);
    assert!(is_hand_off_failure(client.send_emails(sample())));

    let made = MemoryClient::new(MemoryConfig::new("sender@example.com"));
    assert_eq!(made.get_sender().to_string(), "sender@example.com");
    assert!(is_hand_off_failure(made.send_emails(sample())));

    let default_client = MemoryClient::default();
    assert_eq!(default_client.get_sender().to_string(), "");
    assert!(is_hand_off_failure(default_client.send_emails(sample())));
}

#[test]
fn memory_copy_of_a_client_without_receiver_fails_too() {
    let made = MemoryClient::new(MemoryConfig::new("sender@example.com"));
    let copy = made.clone();
    assert_eq!(copy.get_sender(), made.get_sender());
    for _ in 0..(CHANNEL_CAPACITY + 1) {
        assert!(is_hand_off_failure(copy.send_emails(sample())));
        assert!(is_hand_off_failure(made.send_emails(sample())));
    }
    assert!(is_hand_off_failure(MemoryClient::default().clone().send_emails(sample())));
}

#[test]
fn memory_clone_feeds_the_same_channel() {
    let (tx, rx) = mpsc::sync_channel(2);
    let client = MemoryClient::with_tx(MemoryConfig::new("a@example.com"), tx);
    let copy = client.clone();
    assert_eq!(copy.get_sender(), client.get_sender());
    assert!(copy.send_emails(sample()).is_ok());
    assert!(client.send_emails(sample()).is_ok());
    assert_eq!(rx.try_iter().count(), 2);
}

#[test]
fn memory_hand_off_results() {
    assert!(matches!(hand_off_result(HandOff::Delivered), Ok(Delivery::Done)));
    assert!(is_hand_off_failure(hand_off_result(HandOff::Full)));
    assert!(is_hand_off_failure(hand_off_result(HandOff::Disconnected)));
    assert_eq!(CHANNEL_CAPACITY, 5);
}

#[test]
fn memory_config_conversions() {
    let config = MemoryConfig::new("sender@example.com");
    assert_eq!(config.sender.to_string(), "sender@example.com");
    let value = String::from("sender@example.com");
    let from_string = MemoryConfig::from(value);
    assert!(from_string == config);
    assert!(config.clone() == config);
    assert!(MemoryConfig::default() != config);
    assert_eq!(MemoryConfig::default().sender, EmailAddress::default());
    let named = MemoryConfig::new(EmailAddress {
        name: "N".to_string(),
        email: "n@example.com".to_string(),
    });
    assert_eq!(named.sender.to_string(), "N <n@example.com>");
    let configuration: EmailConfiguration = config.into();
    match configuration {
        EmailConfiguration::Memory(mc) => {
            assert_eq!(mc.sender.to_string(), "sender@example.com");
        }
        _ => panic!("Invalid conversion"),
    }
}
