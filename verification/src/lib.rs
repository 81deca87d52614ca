//! Builds the JSON payload and the startup script that forward parsed
//! command-line arguments into a web view's global scope.

pub mod args;
pub mod json;
