//! Data shapes of the product JSON API that the library reads.

use vstd::prelude::*;

verus! {

/// A person credited on a product.
#[derive(Debug, Clone)]
pub struct Creator {
    /// Creator id.
    pub id: String,
    /// Display name.
    pub name: String,
    /// Role, e.g. `author` or `voice`.
    pub classification: String,
    /// Finer role, when given.
    pub sub_classification: Option<String>,
}

/// The people credited on a product, by role.
#[derive(Debug, Clone)]
pub struct Creators {
    /// Authors.
    pub created_by: Option<Vec<Creator>>,
    /// Scenario writers.
    pub scenario_by: Option<Vec<Creator>>,
    /// Illustrators.
    pub illust_by: Option<Vec<Creator>>,
    /// Voice actors.
    pub voice_by: Option<Vec<Creator>>,
}

} // verus!
