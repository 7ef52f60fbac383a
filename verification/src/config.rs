//! Errors of configuration loading.

use vstd::prelude::*;

verus! {

/// Errors while loading a configuration file.
#[derive(Clone, Debug)]
pub enum ConfigError {
    /// The configuration file could not be found.
    FileNotFound,
    /// The configuration file could not be parsed.
    InvalidConfig(String),
}

} // verus!
