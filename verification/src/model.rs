pub mod error;
pub mod http;
pub mod item;
pub mod user;
