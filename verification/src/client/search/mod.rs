//! Product search on DLsite: query paths and the reading of result HTML.

pub mod item;
pub mod page;
pub mod query;
pub mod selectors;

pub use self::item::SearchProductItem;
pub use self::page::SearchResult;
pub use self::query::SearchProductQuery;
