//! Download handoff: the URL of a purchased work's download.

use vstd::prelude::*;
use crate::text::concat;

verus! {

/// The URL of the download target request for `workno`.
pub open spec fn spec_download_target_url(workno: Seq<char>) -> Seq<char> {
    "https://play.dlsite.com/api/v3/download?workno="@ + workno
}

/// Build the URL of the download target request for `workno`.
pub fn download_target_url(workno: &str) -> (url: String)
    ensures
        url@ == spec_download_target_url(workno@),
{
    concat("https://play.dlsite.com/api/v3/download?workno=", workno)
}

/// Download target information
#[derive(Debug, Clone)]
pub struct DownloadTarget {
    /// The work ID
    pub workno: String,
    /// Signed download URL (may expire after some time)
    pub url: Option<String>,
    /// File name for the download
    pub filename: Option<String>,
    /// File size in bytes
    pub filesize: Option<i64>,
    /// Expiration timestamp for the download URL
    pub expires_at: Option<String>,
    /// Whether the download is available
    pub is_available: Option<bool>,
    /// Error message if download is not available
    pub error: Option<String>,
}

} // verus!
