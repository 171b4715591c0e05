//! Terminal UI for managing MicroSandbox sandboxes: the verified core.
//!
//! The library owns the application's state and every decision made on it;
//! the surrounding program draws the state and performs the I/O the
//! library asks for.
pub mod app;
pub mod config;
pub mod layout;
pub mod sandbox;
pub mod shell;
pub mod text;
pub mod theme;
pub mod view;
