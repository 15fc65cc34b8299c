//! A linter that reports Unicode characters for which plain ASCII should be
//! written, together with the hierarchical resolution of its own settings.
//!
//! The settings of a run are found by walking from a starting directory up to
//! the filesystem root. Each directory may hold one settings file; what is
//! found closer to the start overrides what is found farther away, and a file
//! may end the walk. The modules state these rules as contracts and prove the
//! code against them.

pub mod arguments;
pub mod check;
pub mod cli;
pub mod config;
pub mod document;
pub mod logging;
pub mod resolve;
pub mod system;
