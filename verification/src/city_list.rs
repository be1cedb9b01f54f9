//! Countries and cities offered when users enter an address.

use vstd::prelude::*;

verus! {

/// A country and its two-letter ISO code.
#[derive(Debug, Clone)]
pub struct Country {
    pub country: String,
    pub iso2: String,
}

/// A city name.
#[derive(Debug, Clone)]
pub struct City {
    pub city: String,
}

} // verus!
