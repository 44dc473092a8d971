pub mod user_id;

pub use user_id::UserId;
