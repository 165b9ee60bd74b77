//! A small CRUD service core: entity models, an error taxonomy, an in-memory
//! repository behind a repository trait, a validating service layer, response
//! envelopes, and correlation-id resolution. Transport and database glue live
//! outside the library.

pub mod handler;
pub mod ident;
pub mod middleware;
pub mod model;
pub mod repository;
pub mod service;
pub mod text;
