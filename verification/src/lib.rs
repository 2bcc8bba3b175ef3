//! PKCE authorization flow and token lifecycle for a desktop client of a
//! music-streaming API.
//!
//! The crate covers the protocol logic of one OAuth 2.0 authorization-code
//! flow with PKCE: generating the state token, code verifier and challenge,
//! deciding what a local redirect listener must do with each inbound request,
//! and interpreting the token endpoint's responses for both the
//! authorization-code and the refresh-token grants. The surrounding I/O
//! (the HTTP listener itself, the outbound POSTs, the browser) lives outside
//! this crate and drives these functions.

pub mod auth;
pub mod error;
pub mod pkce;
pub mod query;
pub mod resource;
pub mod strutil;
pub mod token;
pub mod track;
pub mod urlutil;

pub use auth::{Auth, AuthFlow, FlowPhase, StepAction};
pub use error::MyError;
