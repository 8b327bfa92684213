//! The library of purchased works: request URLs and entries.

use vstd::prelude::*;
use crate::error::DlsiteError;
use crate::text::{concat, i64_to_string, owned, signed_decimal};

verus! {

/// `base`, followed by `?last=N` when a pagination id is given.
pub open spec fn paged_url(base: Seq<char>, last: Option<i32>) -> Seq<char> {
    match last {
        Some(l) => base + "?last="@ + signed_decimal(l as int),
        None => base,
    }
}

fn paged(base: &str, last: Option<i32>) -> (url: String)
    ensures
        url@ == paged_url(base@, last),
{
    match last {
        Some(l) => {
            let mut url = concat(base, "?last=");
            let n = i64_to_string(l as i64);
            url.append(n.as_str());
            url
        },
        None => owned(base),
    }
}

/// The URL of the library count request.
pub fn library_count_url(last: Option<i32>) -> (url: String)
    ensures
        url@ == paged_url("https://play.dlsite.com/api/v3/content/count"@, last),
{
    paged("https://play.dlsite.com/api/v3/content/count", last)
}

/// The URL of the library sales request.
pub fn library_sales_url(last: Option<i32>) -> (url: String)
    ensures
        url@ == paged_url("https://play.dlsite.com/api/v3/content/sales"@, last),
{
    paged("https://play.dlsite.com/api/v3/content/sales", last)
}

/// The answer to a batch lookup of works: the lookup needs a POST request,
/// which the client does not make, so it is always this parse error.
pub fn works_lookup_unsupported() -> (e: DlsiteError)
    ensures
        e matches DlsiteError::Parse(m) && m@ == "POST /api/v3/content/works not yet implemented - requires POST support"@,
{
    DlsiteError::Parse(owned("POST /api/v3/content/works not yet implemented - requires POST support"))
}

/// Library count response
#[derive(Debug, Clone)]
pub struct LibraryCount {
    /// Total number of works in library
    pub count: i32,
    /// Whether there are more works to fetch
    pub has_more: Option<bool>,
}

/// Library entry representing a purchased work
#[derive(Debug, Clone)]
pub struct LibraryEntry {
    /// Work ID (e.g., "RJ123456")
    pub workno: String,
    /// Work name/title
    pub work_name: String,
    /// Maker/circle ID
    pub maker_id: Option<String>,
    /// Maker/circle name
    pub maker_name: Option<String>,
    /// Purchase date
    pub purchase_date: Option<String>,
    /// Whether the work is downloadable
    pub is_downloadable: Option<bool>,
    /// Whether the work supports DLsite Play streaming
    pub is_play_available: Option<bool>,
    /// File size (human-readable string)
    pub file_size: Option<String>,
    /// Main image URL
    pub image_main: Option<String>,
    /// Thumbnail image URL
    pub image_thumb: Option<String>,
}

} // verus!
