//! Redirect-polling authorization for a music user token.
//!
//! A host application shows an identity provider's login page in an embedded
//! browser surface and samples the surface's address on a fixed cadence. This
//! crate holds the decisions of that flow: when an address carries the token,
//! which token it carries, what the host has to do next, and what the caller
//! is told at the end. The host performs the commands and reports back.

pub mod address;
pub mod error;
pub mod flow;
pub mod handback;
pub mod history;
pub mod marker;
pub mod poll;
pub mod token;
