//! The product JSON API: request paths and the choice of the product in a
//! response.

pub mod interface;

use vstd::prelude::*;
use crate::error::DlsiteError;
use crate::interface::query::Language;
use crate::text::{concat, owned};

verus! {

/// The path of the product API request for product `id` in `locale`.
pub open spec fn spec_product_api_path(id: Seq<char>, locale: Language) -> Seq<char> {
    "/api/=/product.json?workno="@ + id + "&locale="@ + locale.locale()
}

/// Build the path of the product API request for product `id` in `locale`.
pub fn product_api_path(id: &str, locale: &Language) -> (path: String)
    ensures
        path@ == spec_product_api_path(id@, *locale),
{
    let mut path = concat("/api/=/product.json?workno=", id);
    path.append("&locale=");
    path.append(locale.to_review_locale());
    path
}

/// The first product of a product API response; an empty response is a
/// parse error "No product found".
pub fn first_product<T>(items: Vec<T>) -> (r: Result<T, DlsiteError>)
    ensures
        items@.len() == 0 ==> (r matches Err(DlsiteError::Parse(m)) && m@ == "No product found"@),
        items@.len() > 0 ==> r == Ok::<T, DlsiteError>(items@[0]),
{
    let mut items = items;
    if items.len() == 0 {
        Err(DlsiteError::Parse(owned("No product found")))
    } else {
        Ok(items.remove(0))
    }
}

/// The product of a product API answer, given how decoding its JSON as a
/// list of products went: a decoding error `msg` is the parse error
/// "Failed to parse json: msg", an empty list the parse error
/// "No product found", and otherwise the first product.
pub fn product_from_answer<T>(decoded: Result<Vec<T>, String>) -> (r: Result<T, DlsiteError>)
    ensures
        decoded matches Err(msg) ==> (r matches Err(DlsiteError::Parse(m)) && m@ == "Failed to parse json: "@ + msg@),
        decoded matches Ok(items) ==> {
            &&& items@.len() == 0 ==> (r matches Err(DlsiteError::Parse(m)) && m@ == "No product found"@)
            &&& items@.len() > 0 ==> r == Ok::<T, DlsiteError>(items@[0])
        },
{
    match decoded {
        Err(msg) => Err(DlsiteError::Parse(concat("Failed to parse json: ", msg.as_str()))),
        Ok(items) => first_product(items),
    }
}

/// The images of a product, as the product API lists them.
pub struct ProductImages {
    /// URL of the thumbnail (`image_thum`).
    pub thumbnail_url: String,
    /// URLs of the sample images (`image_samples`), when the product has any.
    pub sample_urls: Option<Vec<String>>,
}

/// The characters of each URL of an optional list, or nothing.
pub open spec fn sample_views(v: Option<Vec<String>>) -> Seq<Seq<char>> {
    match v {
        Some(urls) => urls@.map_values(|u: String| u@),
        None => Seq::empty(),
    }
}

/// The URLs of an optional list, in order, or none.
pub fn urls_or_empty(v: Option<Vec<String>>) -> (r: Vec<String>)
    ensures
        r@.map_values(|u: String| u@) == sample_views(v),
{
    match v {
        Some(urls) => urls,
        None => {
            let r: Vec<String> = Vec::new();
            assert(r@.map_values(|u: String| u@) =~= Seq::<Seq<char>>::empty());
            r
        },
    }
}

impl ProductImages {
    /// The thumbnail URL of the product.
    pub fn thumbnail(self) -> (r: String)
        ensures
            r@ == self.thumbnail_url@,
    {
        self.thumbnail_url
    }

    /// The screenshot URLs of the product, in order; none when it has no
    /// samples.
    pub fn screenshots(self) -> (r: Vec<String>)
        ensures
            r@.map_values(|u: String| u@) == sample_views(self.sample_urls),
    {
        urls_or_empty(self.sample_urls)
    }
}

} // verus!
