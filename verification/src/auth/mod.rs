//! The `auth` commands.

pub mod error;
pub mod laws;
pub mod pkce;
pub mod response;
pub mod resume;
pub mod state;
