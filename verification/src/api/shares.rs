pub mod access_right;
pub mod config;
pub mod kind;
pub mod share;

pub use access_right::AccessRight;
pub use config::ShareConfig;
pub use kind::Kind;
pub use share::Share;
