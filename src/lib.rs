//! Cross-site request forgery protection: a per-session token that is issued
//! lazily and checked on every state-changing request.

pub mod digest;
pub mod guard;
pub mod laws;
pub mod middleware;
pub mod token;
