//! Verified core of the Ratterm terminal workspace: add-on bookkeeping, the
//! control-API authentication and framing, and the application state that
//! the key handlers drive.

pub mod text;
pub mod addons;
pub mod api;
pub mod lsp;
pub mod app;
pub mod tty;
