//! Completing OAuth 2.0 grants and inspecting the tokens they issue.
//!
//! The library takes the decisions of the `auth resume` and `token inspect`
//! commands; whoever embeds it performs the input and output that it asks for.

pub mod account;
pub mod auth;
pub mod text;
pub mod token;
pub mod uri;
