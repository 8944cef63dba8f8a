//! An in-memory store of named recipes, with the request handling that
//! binds it to a small HTTP surface.
pub mod handler;
pub mod laws;
pub mod recipe;
pub mod shared;
pub mod store;
