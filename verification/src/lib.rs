//! A slash-command handler that turns a file from the active workspace into a
//! documentation-request prompt.
//!
//! The handler validates the invocation, resolves the target path under the
//! workspace root, classifies the file by its extension, and renders a fixed
//! Markdown template around the file's contents. All of that logic is verified
//! here; the host glue (resolving the workspace root, checking that the file
//! exists, reading it) lives outside the library and hands in plain values.

pub mod file_type;
pub mod handler;
pub mod prompt;
pub mod strings;
