//! Execution dispatch and layered install-path settings for a Ruby toolchain manager.

pub mod bundler_settings;
pub mod environment;
pub mod paths;
pub mod resolver;
pub mod run;
pub mod search;
pub mod settings;
pub mod text;
pub mod update;
pub mod yaml;
