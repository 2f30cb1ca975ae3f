//! Records of the analytics service.
pub mod error;
