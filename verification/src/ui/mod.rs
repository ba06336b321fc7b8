//! The state behind the interactive interface: what is shown and what the
//! keys do. Drawing it and reading the keys is the caller's business.
pub mod app;
pub mod handler;
pub mod help;
pub mod model;
pub mod popup;
pub mod table;
