//! The `token` commands.

pub mod inspect;
pub mod laws;
pub mod params;
