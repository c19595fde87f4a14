//! Version resolution and the uninstall lifecycle of a manager for several
//! installed releases of one tool.

pub mod config;
pub mod directories;
pub mod environment;
pub mod laws;
pub mod model;
pub mod paths;
pub mod pattern;
pub mod release;
pub mod resolver;
pub mod text;
pub mod tracker;
pub mod uninstall;
