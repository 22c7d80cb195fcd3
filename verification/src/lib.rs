//! Session core for a small user-directory service.
//!
//! Clients authenticate over a framed, turn-taking channel and then issue
//! gated operations: list the directory, change phone numbers, add accounts.
//! The crate verifies the parts with real design decisions: the action
//! dispatcher and its fixed gating order (authenticate, authorize, referential
//! checks, input validation, effect), the session state machine, the policy
//! gate, and the channel discipline of one reply per action.  Transport
//! security, persistence to disk and logging live outside this crate; the
//! password-hashing primitive is called through a narrow trusted boundary.

pub mod text;
pub mod user;
pub mod validator;
pub mod policy;
pub mod database;
pub mod credential;
pub mod channel;
pub mod action;
pub mod laws;
