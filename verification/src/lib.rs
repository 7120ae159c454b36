//! A verified core for a food-marketplace mobile-API client: the
//! email-confirmation authentication handshake, the token-refresh policy that
//! keeps a session usable across repeated item queries, and the
//! classification of item-search responses.
//!
//! The HTTP transport is an outside collaborator: the library decides what to
//! send and what each answer means, and the caller performs the sends and the
//! sleeps. Response bodies are decoded here, behind a thin trusted layer over
//! a JSON library; everything downstream of the decoded fields is verified.

pub mod error;
pub mod handshake;
pub mod json;
pub mod query;
pub mod refresh;
pub mod session;
