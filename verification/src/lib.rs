//! Core rules of the Spur social writing service: user identities and friendships,
//! access to prompts and posts, credential and token checks, and the mapping of
//! every failure to the answer that the HTTP layer gives.

pub mod text;
pub mod errors;
pub mod ids;
pub mod friendship;
pub mod insertion;
pub mod content;
pub mod users;
pub mod auth;
pub mod api;
pub mod store;
