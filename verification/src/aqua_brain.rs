//! How the analysis engine answers a failure.

use vstd::prelude::*;

verus! {

/// What can go wrong in the analysis engine.
#[derive(Debug, Clone)]
pub enum ApiError {
    SystemStatusUnavailable(String),
    AnalysisFailed(String),
    SpeciesDataUnavailable(String),
    /// A service that was called failed; the text is what it said.
    ExternalService(String),
    InternalError(String),
}

impl ApiError {
    /// The HTTP status that answers the error.
    pub open spec fn status(self) -> u16 {
        match self {
            ApiError::SystemStatusUnavailable(_) => 503,
            ApiError::AnalysisFailed(_) => 500,
            ApiError::SpeciesDataUnavailable(_) => 503,
            ApiError::ExternalService(_) => 502,
            ApiError::InternalError(_) => 500,
        }
    }

    /// The error in words.
    pub open spec fn text(self) -> Seq<char> {
        match self {
            ApiError::SystemStatusUnavailable(msg) => "System status unavailable: "@ + msg@,
            ApiError::AnalysisFailed(msg) => "Analysis failed: "@ + msg@,
            ApiError::SpeciesDataUnavailable(msg) => "Species data unavailable: "@ + msg@,
            ApiError::ExternalService(e) => "External service error: "@ + e@,
            ApiError::InternalError(msg) => "Internal server error: "@ + msg@,
        }
    }

    /// The message that answers the error: the error in words, but for
    /// what another service said, which is not passed on.
    pub open spec fn response_text(self) -> Seq<char> {
        match self {
            ApiError::ExternalService(_) => "External service error"@,
            _ => self.text(),
        }
    }

    /// The HTTP status that answers the error.
    pub fn status_code(&self) -> (code: u16)
        ensures
            code == self.status(),
    {
        match self {
            ApiError::SystemStatusUnavailable(_) => 503,
            ApiError::AnalysisFailed(_) => 500,
            ApiError::SpeciesDataUnavailable(_) => 503,
            ApiError::ExternalService(_) => 502,
            ApiError::InternalError(_) => 500,
        }
    }

    /// The error in words.
    pub fn to_string(&self) -> (m: String)
        ensures
            m@ == self.text(),
    {
        match self {
            ApiError::SystemStatusUnavailable(msg) => "System status unavailable: ".to_owned().concat(
                msg.as_str(),
            ),
            ApiError::AnalysisFailed(msg) => "Analysis failed: ".to_owned().concat(msg.as_str()),
            ApiError::SpeciesDataUnavailable(msg) => "Species data unavailable: ".to_owned().concat(
                msg.as_str(),
            ),
            ApiError::ExternalService(e) => "External service error: ".to_owned().concat(
                e.as_str(),
            ),
            ApiError::InternalError(msg) => "Internal server error: ".to_owned().concat(
                msg.as_str(),
            ),
        }
    }

    /// The message that answers the error.
    pub fn error_message(&self) -> (m: String)
        ensures
            m@ == self.response_text(),
    {
        match self {
            ApiError::ExternalService(_) => "External service error".to_owned(),
            _ => self.to_string(),
        }
    }
}

} // verus!
