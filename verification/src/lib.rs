//! Session authentication: issuance and validation of signed, time-limited
//! session tokens, a shared holder for the client's current token, a
//! per-view guard state machine that decides whether protected content may
//! render, and the persisted redirect consumed after login.

pub mod context;
pub mod endpoints;
pub mod guard;
pub mod redirect;
pub mod token;
