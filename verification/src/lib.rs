//! A single way to send outbound email through one of several interchangeable
//! backends: echo to the terminal, an in-process channel for tests, an SMTP
//! relay, or the MailerSend HTTP API.
//!
//! Every backend offers the same two operations, [`traits::EmailTrait::get_sender`]
//! and [`traits::EmailTrait::send_emails`]. This crate holds the decisions of
//! each backend: what is written, which message is built, which request is
//! formed, and how a reply is judged. `send_emails` returns a
//! [`delivery::Delivery`] that names the input or output still to be carried
//! out by the caller, if any.
pub mod email;
pub mod errors;
pub mod secret;
pub mod text;
pub mod traits;
pub mod delivery;
pub mod configuration;
pub mod clients;
