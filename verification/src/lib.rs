//! A minimal SIP registrar and stateless proxy core.
//!
//! The crate classifies inbound datagrams into requests and responses,
//! maintains a volatile location registry mapping user identifiers to their
//! registered contact URIs, and decides for each message what (if anything)
//! is to be sent where.  Wire-format parsing and serialization are delegated
//! to the `rsip` codec behind a small trusted boundary; everything that
//! decides — registration, forwarding, response return — is verified.
//!
//! Socket handling and the receive loop live outside this crate: the library
//! turns one inbound datagram into at most one outbound message.

pub mod codec;
pub mod error;
pub mod message;
pub mod proxy;
pub mod registry;
