//! The shapes and rules behind the application's commands: what crosses the
//! IPC seam and what each command decides.

pub mod wire;
pub mod lock;
pub mod encryption;
pub mod export_import;
pub mod clips;
