//! Identity-and-credential core: signed session tokens, the sign-up /
//! sign-in / reset / confirmation flows, and OAuth identity resolution.
//!
//! Every use case that talks to a store, a cache, a mail transport or an
//! OAuth provider is written as a step function: it receives the outcome of
//! the previous collaborator call and answers with the next call to make, or
//! with the use case's result. The driver that performs those calls lives
//! outside this crate.
pub mod email;
pub mod password;
pub mod ids;
pub mod user;
pub mod session;
pub mod identity;
pub mod config;
pub mod token;
pub mod store;
pub mod authenticator;
pub mod oauth;
pub mod laws;
