pub mod parameters;
pub mod query_options;

pub use parameters::Parameters;
pub use query_options::QueryOptions;
