//! Verification and normalization of inbound federated activities.
//!
//! This crate is the typing-and-verification layer of a federated
//! social-content service: it decodes untrusted vote ("Like"/"Dislike")
//! activities and remote community ("Group") actor payloads, enforces the
//! security checks that make them safe to act on (domain-match against the
//! delivering host, moderation screening of free-text fields), and resolves
//! the community an activity belongs to by chaining remote-object
//! references. Network fetching itself is left to a federation runtime;
//! this crate only decides, on plain values, what each fetched payload
//! means and whether it is acceptable.

pub mod error;
pub mod group;
pub mod objects;
pub mod policy;
pub mod remote;
pub mod resolve;
pub mod text;
pub mod vote;
