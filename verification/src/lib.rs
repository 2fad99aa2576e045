//! Identity layer of a small HTTP service: bearer-token verification against
//! an identity provider's published signing keys, the authorization-code
//! login flow with PKCE and CSRF protection, server-side sessions, and the
//! gate that admits or rejects a request.
//!
//! Everything here computes on plain values. Network calls, the clock and
//! the HTTP framework live with the caller, which hands in what it read and
//! carries out what the library decides.

pub mod error;
pub mod text;
pub mod customer;
pub mod dto;
pub mod json;
pub mod keys;
pub mod token;
pub mod session;
pub mod config;
pub mod flow;
pub mod gate;
