//! A small key-value store whose values can be handed to the system clipboard.
//!
//! The store keeps string keys and string values, mirrors them in a JSON
//! document, and lists its keys in ascending order. The clipboard side decides
//! which delivery mechanisms to try, in which order, for a given desktop
//! environment. Reading and writing files, spawning helper programs and talking
//! to the clipboard itself are left to the caller.

pub mod text;
pub mod json;
pub mod error;
pub mod handler;
pub mod clipboard;
pub mod cli;
pub mod laws;
