pub mod content;
pub mod item;
pub mod requests;
pub mod kind;
pub mod path;

pub use content::{ChunkRequest, ChunkState, PostOutcome, TransferHandle, WriteStep, DEFAULT_CHUNK_SIZE};
pub use item::Item;
pub use kind::Kind;
pub use path::Path;
