//! Configuration errors.

use vstd::prelude::*;

verus! {

#[derive(Debug)]
pub enum ConfigError {
    InvalidConfig(String),
    MissingConfig(String),
}

} // verus!
