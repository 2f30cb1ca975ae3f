//! What the request handlers decide before and after they ask the store.
pub mod auth;
pub mod chat;
