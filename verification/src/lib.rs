//! Protocol core of a command-line authenticator for an identity provider
//! with a hardware-security-key second factor.
//!
//! The crate holds the logic of one authentication attempt: classifying the
//! primary response, selecting the usable hardware factor, encoding and
//! decoding challenge material, building the wire request bodies, and the
//! state machine that sequences the round trips. All I/O - HTTP, the secret
//! store, the CTAP hardware transport - stays with the caller, which drives
//! the machine by performing each returned action and feeding the result
//! back.
pub mod codec;
pub mod errors;
pub mod json;
pub mod machine;
pub mod model;
pub mod outcome;
pub mod request;
pub mod selector;

