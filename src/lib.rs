//! User registration, password login and token-gated access: the verified core.
pub mod models;
pub mod password;
pub mod token;
pub mod auth;
pub mod gate;
