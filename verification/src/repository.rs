pub mod memory;
pub mod registry;
