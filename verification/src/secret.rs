//! Credentials that must never be rendered: the SMTP password and the API token.
use vstd::prelude::*;

verus! {

/// A text that is never shown. Its `Debug` form is redacted, and its memory is
/// wiped when it is dropped. What it holds is read only through
/// [`SecretText::expose_secret`].
#[derive(Debug)]
#[verifier::external_body]
pub struct SecretText {
    inner: secrecy::Secret<String>,
}

/// The text that a secret holds.
pub uninterp spec fn secret_text(secret: SecretText) -> Seq<char>;

impl View for SecretText {
    type V = Seq<char>;

    open spec fn view(&self) -> Seq<char> {
        secret_text(*self)
    }
}

/// `secrecy::Secret::new`: the secret holds the text it was made from.
#[verifier::external_body]
fn seal(text: String) -> (r: SecretText)
    ensures
        secret_text(r) == text@,
{
    SecretText { inner: secrecy::Secret::new(text) }
}

/// `secrecy::ExposeSecret::expose_secret`: a reference to the text that the
/// secret holds.
#[verifier::external_body]
fn expose(secret: &SecretText) -> (r: &String)
    ensures
        r@ == secret_text(*secret),
{
    secrecy::ExposeSecret::expose_secret(&secret.inner)
}

/// `Clone::clone` of `secrecy::Secret<String>`: a secret that holds the same text.
#[verifier::external_body]
fn duplicate(secret: &SecretText) -> (r: SecretText)
    ensures
        secret_text(r) == secret_text(*secret),
{
    SecretText { inner: secret.inner.clone() }
}

impl SecretText {
    /// A secret that holds `text`.
    pub fn new(text: &str) -> (r: Self)
        ensures
            r@ == text@,
    {
        seal(text.to_owned())
    }

    /// The text that the secret holds. Call this only where the credential is
    /// put on the wire.
    pub fn expose_secret(&self) -> (r: &str)
        ensures
            r@ == self@,
    {
        expose(self).as_str()
    }
}

impl Clone for SecretText {
    fn clone(&self) -> (r: Self)
        ensures
            r@ == self@,
    {
        duplicate(self)
    }
}

impl Default for SecretText {
    fn default() -> (r: Self)
        ensures
            r@ == Seq::<char>::empty(),
    {
        seal(String::new())
    }
}

} // verus!
