//! Connection settings for the relational store. They are read from the
//! process environment at startup by the program around this crate; the
//! crate only defines their shape.

use vstd::prelude::*;

verus! {

/// Database connection-pool settings.
#[derive(Clone, Debug)]
pub struct DatabaseSettings {
    pub url: String,
    pub max_connections: u32,
    pub min_connections: u32,
}

} // verus!
