//! Crate-specific build information, as rendered into Bazel `BUILD` files.

pub mod keyed;
pub mod ordset;
pub mod keymap;
pub mod select;
pub mod starlark;
pub mod config;
pub mod metadata;
pub mod utils;
pub mod order;
pub mod crate_context;
pub mod dependencies;
pub mod overrides;
pub mod targets;
pub mod laws;
pub mod settings_laws;
pub mod context_laws;
