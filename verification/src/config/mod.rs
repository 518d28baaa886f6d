//! Configuration: the settings of each section, their defaults, and their validation.
pub mod schema;
pub mod validator;

pub use schema::{
    GeneralConfig, GoogleDriveConfig, NotificationsConfig, SourceConfig, StateConfig, SyncConfig,
};
pub use validator::check_config;
