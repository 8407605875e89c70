//! Incremental synchronisation of remote tabular extracts into a local
//! analytical store.
//!
//! The crate holds the decisions of the synchronisation engine and of the
//! authenticated client as pure functions with machine-checked contracts. It
//! performs no input or output: every function either computes a value or says
//! which request, statement or file operation comes next, and is told what came
//! of it.

pub mod bindings;
pub mod config;
pub mod cursor;
pub mod deep_lynx;
pub mod engine;
pub mod errors;
pub mod laws;
pub mod loader;
pub mod pass;
pub mod statements;
pub mod text;

pub use crate::config::{Configuration, DataSourceConfiguration};
pub use crate::engine::{continuous_fetch_and_load, initial_fetch_and_load};
pub use crate::loader::Loader;
pub use crate::pass::load_loop;
pub use crate::statements::clean_data;
