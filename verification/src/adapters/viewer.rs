//! The DLsite Play viewer: request URLs and session data.

use vstd::prelude::*;
use crate::error::DlsiteError;
use crate::text::concat;

verus! {

/// The URL of the manifest token request for `workno`.
pub open spec fn spec_manifest_token_url(workno: Seq<char>) -> Seq<char> {
    "https://play.dl.dlsite.com/api/v3/download/sign/cookie?workno="@ + workno
}

/// Build the URL of the manifest token request for `workno`.
pub fn manifest_token_url(workno: &str) -> (url: String)
    ensures
        url@ == spec_manifest_token_url(workno@),
{
    concat("https://play.dl.dlsite.com/api/v3/download/sign/cookie?workno=", workno)
}

/// The answer to a viewer session request for `workno`: the session needs a
/// POST request, which the client does not make, so it is always this parse
/// error.
pub fn viewer_session_unsupported(workno: &str) -> (e: DlsiteError)
    ensures
        e matches DlsiteError::Parse(m)
            && m@ == "POST /api/v3/viewer/token/"@ + workno@ + " not yet implemented - requires POST support"@,
{
    let mut m = concat("POST /api/v3/viewer/token/", workno);
    m.append(" not yet implemented - requires POST support");
    DlsiteError::Parse(m)
}

/// Manifest token for viewer access
#[derive(Debug, Clone)]
pub struct ManifestToken {
    /// The work ID
    pub workno: Option<String>,
    /// Signed URL for the manifest
    pub manifest_url: Option<String>,
    /// Token for authentication
    pub token: Option<String>,
    /// Expiration timestamp
    pub expires_at: Option<String>,
    /// Error message if not available
    pub error: Option<String>,
}

/// Viewer session for streaming content
#[derive(Debug, Clone)]
pub struct ViewerSession {
    /// The work ID
    pub workno: String,
    /// Session token for viewer
    pub token: Option<String>,
    /// Viewer URL
    pub viewer_url: Option<String>,
    /// Expiration timestamp for the session
    pub expires_at: Option<String>,
    /// Whether the session is valid
    pub is_valid: Option<bool>,
    /// Error message if session creation failed
    pub error: Option<String>,
}

} // verus!
