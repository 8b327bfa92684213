//! Errors that can occur while using the DLsite API.

use vstd::prelude::*;

verus! {

#[verifier::external_type_specification]
#[verifier::external_body]
pub struct ExReqwestError(reqwest::Error);

#[verifier::external_type_specification]
#[verifier::external_body]
pub struct ExSerdeJsonError(serde_json::Error);

/// Errors that can occur while using the DLsite API.
#[non_exhaustive]
#[derive(Debug)]
pub enum DlsiteError {
    /// HTTP request error
    Reqwest(reqwest::Error),
    /// JSON serialization/deserialization error
    SerdeJson(serde_json::Error),
    /// HTTP status code error
    HttpStatus(u16),
    /// Rate limit error - too many requests
    RateLimit(String),
    /// Request timeout error
    Timeout,
    /// HTML/JSON parsing error
    Parse(String),
    /// Server-side error
    Server(String),
    /// Authentication is required to access this resource (HTTP 401/403)
    AuthRequired(String),
    /// Session has expired and the user must re-authenticate
    SessionExpired(String),
    /// The API response shape has drifted from the expected schema
    SchemaDrift(String),
    /// Work not found in the DLsite catalog
    WorkNotFound(String),
    /// Download not available for this work
    DownloadNotAvailable(String),
    /// DLsite Play not available for this work
    PlayNotAvailable(String),
    /// Feature requires a specific feature flag to be enabled
    FeatureGated {
        /// The feature that was requested
        feature: &'static str,
        /// The required feature flag
        required_flag: &'static str,
    },
}

/// A parse error carrying `msg`.
pub fn parse_error(msg: &str) -> (e: DlsiteError)
    ensures
        e matches DlsiteError::Parse(m) && m@ == msg@,
{
    DlsiteError::Parse(String::from_str(msg))
}

} // verus!
