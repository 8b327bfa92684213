//! Common interface types for the DLsite API: products, search query values,
//! sites and genres.

pub mod genre;
pub mod product;
pub mod query;
pub mod site;
