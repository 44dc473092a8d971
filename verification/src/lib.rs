pub mod api;
pub mod connection;
pub mod error;
pub mod json;
pub mod odata;
pub mod dates;
pub mod digest;
pub mod text;
pub mod urlenc;

pub use odata::{Parameters, QueryOptions};
pub use api::bool_to_string;
pub use api::MultiOption;
pub use api::items::{ChunkRequest, ChunkState, Kind, Path, PostOutcome, TransferHandle, WriteStep};
pub use api::shares::AccessRight;
pub use api::users::UserId;
pub use connection::{AuthData, ConnectionBuilder, ConnectionSettings};
pub use error::{ApiResult, Error, ServiceError};

