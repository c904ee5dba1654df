//! The configuration of a link checker for rendered documentation.
pub mod config;
pub mod pattern;

pub use config::{default_cache_timeout, default_user_agent, Config, RawConfig};
pub use pattern::{deserialize, serialize, InvalidExcludePattern, Pattern};
