//! Supporting wire-object types carried inside actor payloads. They are
//! plain data: the verification pipeline reads only a few of them, the
//! rest are preserved exactly as received.

use vstd::prelude::*;

verus! {

/// The public-key material a federated actor publishes.
#[derive(Clone, Debug, PartialEq, Eq)]
pub struct PublicKey {
    /// The key's own id.
    pub id: String,
    /// The id of the actor owning the key.
    pub owner: String,
    /// The key itself, PEM-encoded.
    pub public_key_pem: String,
}

/// The markdown source of an HTML display field.
#[derive(Clone, Debug, PartialEq, Eq)]
pub struct Source {
    /// The raw markdown text.
    pub content: String,
}

/// An attached image (icon or banner).
#[derive(Clone, Debug, PartialEq, Eq)]
pub struct ImageObject {
    /// Where the image lives.
    pub url: String,
}

/// The media-type tag of HTML display fields; its only wire value is
/// `"text/html"`, any other present value is a malformed envelope.
#[derive(Clone, Copy, Debug, PartialEq, Eq, Structural)]
pub struct MediaTypeHtml;

/// Extra delivery endpoints an actor may advertise.
#[derive(Clone, Debug, PartialEq, Eq)]
pub struct Endpoints {
    /// An inbox shared by every actor of the instance.
    pub shared_inbox: String,
}

/// One language a community speaks.
#[derive(Clone, Debug, PartialEq, Eq)]
pub struct LanguageTag {
    /// The language code.
    pub identifier: String,
    /// The language's display name.
    pub name: String,
}

} // verus!
