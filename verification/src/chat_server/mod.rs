//! Records and rules of the chat service.
pub mod error;
pub mod handlers;
pub mod models;
