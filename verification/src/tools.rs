pub mod registry;
pub mod types;
