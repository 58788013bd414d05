//! A validated identifier for a participant in a peer-to-peer,
//! content-addressed network: a marker character followed by a
//! base-58-style payload, 26 to 34 characters in all.
//!
//! The library validates untrusted text into [`address::Address`],
//! derives digests from it, renders a shortened human-readable form,
//! and serializes it through a text interchange format, re-validating
//! on every inbound conversion.

pub mod address;
pub mod codec;
pub mod digest;
