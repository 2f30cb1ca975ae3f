//! A chat service's verified core.
//!
//! `notify` is the real-time notification fanout: change notifications are
//! decoded into typed events, the users entitled to each event are worked
//! out, and the event is handed to the delivery channel of each of them that
//! is connected. The other modules hold the request and response records of
//! the services around it, and the rules those services apply before they
//! touch the store.
pub mod ai_sdk;
pub mod analytics;
pub mod bot;
pub mod chat_server;
pub mod invite;
pub mod notify;
pub mod text;
