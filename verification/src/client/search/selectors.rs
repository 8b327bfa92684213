//! CSS selectors of the parts of a DLsite search result page.

use vstd::prelude::*;

verus! {

/// One product of a result list.
pub const SEARCH_RESULT_ITEMS: &'static str = "#search_result_img_box > li";
/// The element carrying the product id.
pub const PRODUCT_ID_ELEMENT: &'static str = "[data-product_id]";
/// The link to the circle.
pub const MAKER_NAME: &'static str = ".maker_name a";
/// The author block, present when the creator differs from the circle.
pub const AUTHOR: &'static str = ".author";
/// A creator link inside the author block.
pub const CREATOR_LINK: &'static str = "a";
/// The current price.
pub const WORK_PRICE: &'static str = ".work_price";
/// The price before a discount, present only on discounted works.
pub const ORIGINAL_PRICE: &'static str = ".work_price_wrap .strike";
/// The title link.
pub const WORK_TITLE: &'static str = ".work_name a";
/// The age rating badge; absent on adult works.
pub const AGE_CATEGORY: &'static str = ".work_genre span";
/// The download count.
pub const DL_COUNT: &'static str = ".work_dl span";
/// The review count.
pub const REVIEW_COUNT: &'static str = ".work_review a";
/// The element whose classes name the work type.
pub const WORK_CATEGORY: &'static str = ".work_category";
/// The thumbnail image.
pub const THUMBNAIL_IMAGE: &'static str = ".work_thumb_inner img";
/// The star rating.
pub const RATING: &'static str = ".star_rating";

} // verus!
