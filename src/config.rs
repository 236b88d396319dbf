//! The service's configuration, once read.

use vstd::prelude::*;

use crate::animal::Animal;

verus! {

/// Where the service listens, and the upstream URL of each animal.
pub struct Config {
    pub port: u16,
    pub addr: String,
    /// One `(animal, url)` entry per animal.
    pub sources: Vec<(Animal, String)>,
}

} // verus!
