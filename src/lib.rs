//! Client library for the Multifon account-management API: token and ordinal
//! codecs, request building, the decoding of XML response bodies, and the
//! validation of replies, with the confirmation protocol of "set" operations.
pub mod client;
pub mod codec;
pub mod response;
pub mod xml;

pub use client::{Client, Error, Result, DEFAULT_TIMEOUT};
pub use codec::{Routing, Status, API};
