pub mod auth;
pub mod builder;
pub mod settings;

pub use auth::AuthData;
pub use builder::ConnectionBuilder;
pub use settings::ConnectionSettings;
