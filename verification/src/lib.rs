//! FastClip's core: the clip model, its validation, the export format, the
//! key material and the store's state rules, with their contracts.

pub mod colour;
pub mod commands;
pub mod error;
pub mod export_file;
pub mod ids;
pub mod json;
pub mod redact;
pub mod settings;
pub mod storage;
pub mod text;
pub mod tray;
pub mod crypto;
