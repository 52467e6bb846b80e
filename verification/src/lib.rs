//! Self-describing hash values.
//!
//! A multihash is a byte string made of an algorithm identifier, a length
//! byte and a payload of exactly that many bytes:
//!
//! ```text
//! byte 0       : algorithm identifier
//! byte 1       : payload length L (0..=255)
//! bytes 2..2+L : payload
//! ```
//!
//! [`HashTypes`] is the registry of algorithm identifiers, [`multihash`]
//! writes such a value and [`decode`] reads one. The digests come from
//! OpenSSL through [`compute_digest`]; [`multihash_with`] takes another
//! provider in its place.

pub mod codec;
pub mod error;
pub mod laws;
pub mod provider;
pub mod registry;

pub use crate::codec::{decode, frame, frame_digest, multihash, multihash_with, Route};
pub use crate::error::MultihashError;
pub use crate::provider::{compute_digest, Algorithm};
pub use crate::registry::HashTypes;
