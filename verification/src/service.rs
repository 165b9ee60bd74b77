pub mod item;
pub mod registry;
pub mod user;
