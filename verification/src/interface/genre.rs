//! Genre representation for DLsite products.

use vstd::prelude::*;

verus! {

/// A genre associated with a DLsite product.
#[derive(Debug, PartialEq, Eq, Clone)]
pub struct Genre {
    /// Display name of the genre (e.g., "ASMR").
    pub name: String,
    /// Numeric genre ID used in API queries.
    pub id: String,
}

} // verus!
