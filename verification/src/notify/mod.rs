//! The fanout engine, stage by stage.
pub mod audience;
pub mod chat;
pub mod dispatch;
pub mod event;
pub mod json;
pub mod laws;
pub mod listener;
pub mod notif;
pub mod payload;
pub mod registry;
pub mod schema;
pub mod shared;
pub mod topic;
