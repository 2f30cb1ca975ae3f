//! The bot service's configuration record.
use vstd::prelude::*;

verus! {

/// The whole configuration.
#[derive(Debug, Clone)]
pub struct AppConfig {
    pub server: ServerConfig,
}

/// Where the service listens and which store it talks to.
#[derive(Debug, Clone)]
pub struct ServerConfig {
    pub port: u16,
    pub db_url: String,
}

} // verus!
