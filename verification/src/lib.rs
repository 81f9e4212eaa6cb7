//! Core logic of a clipboard notifier: user preferences and their
//! sanitization, locale fallback resolution, and clipboard change detection.
//!
//! The library touches neither the file system, nor the environment, nor the
//! clipboard. Its host reads them, hands what it read to these functions,
//! and carries out what they decide.

pub mod clipboard;
pub mod config;
pub mod error;
pub mod locale;
pub mod paths;
pub mod resolve;
pub mod resource;
pub mod store;
