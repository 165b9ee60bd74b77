pub mod common;
pub mod item;
pub mod user;
