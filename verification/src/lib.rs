pub mod articles;
pub mod authentication;
pub mod common;
pub mod settings;
pub mod users;

pub use common::ids::UniqueId;
pub use settings::loader::SettingsLoader;
