//! Credential verification and session-issuance core for a login endpoint.
//!
//! Given a username-or-email identifier and a plaintext secret, the library
//! classifies the identifier, plans the account-store query, folds the
//! store's answer, and decides between authentication, a uniform rejection
//! fragment, and fatal propagation of internal failures.

pub mod classify;
pub mod credential;
pub mod handler;
pub mod render;
pub mod store;
