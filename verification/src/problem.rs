//! The problem-document error layer.
//!
//! Every externally visible failure crosses a role boundary as a structured
//! document carrying a stable type URN from a fixed vocabulary, an HTTP-style
//! status code and the logical endpoint that produced it. Internal errors are
//! mapped into this vocabulary at the boundary and never leaked raw.

use vstd::prelude::*;

verus! {

/// The error vocabulary of the protocol.
#[derive(Clone, Copy, Debug, PartialEq, Eq, Structural)]
pub enum PpmError {
    /// The report's time falls in an interval that was already collected.
    StaleReport,
    /// The collect interval is misaligned or shorter than the batch window.
    InvalidBatchInterval,
    /// Fewer verified reports fell in the interval than the task minimum.
    InsufficientBatchSize,
    /// The interval overlaps an interval whose one-shot budget is spent.
    PrivacyBudgetExceeded,
    /// Decryption or authentication failed; fatal to one report only.
    Crypto,
    /// A wire message was malformed.
    Codec,
    /// The report names a task this aggregator does not serve.
    UnrecognizedTask,
}

impl PpmError {
    /// The stable type URN rendered for this error.
    pub open spec fn spec_type_url(self) -> Seq<char> {
        match self {
            PpmError::StaleReport => "urn:ietf:params:ppm:error:staleReport"@,
            PpmError::InvalidBatchInterval => "urn:ietf:params:ppm:error:invalidBatchInterval"@,
            PpmError::InsufficientBatchSize => "urn:ietf:params:ppm:error:insufficientBatchSize"@,
            PpmError::PrivacyBudgetExceeded => "urn:ietf:params:ppm:error:privacyBudgetExceeded"@,
            PpmError::Crypto => "urn:ietf:params:ppm:error:crypto"@,
            PpmError::Codec => "urn:ietf:params:ppm:error:unrecognizedMessage"@,
            PpmError::UnrecognizedTask => "urn:ietf:params:ppm:error:unrecognizedTask"@,
        }
    }

    /// The stable type URN for this error.
    pub fn type_url(&self) -> (s: &'static str)
        ensures
            s@ == self.spec_type_url(),
    {
        match self {
            PpmError::StaleReport => "urn:ietf:params:ppm:error:staleReport",
            PpmError::InvalidBatchInterval => "urn:ietf:params:ppm:error:invalidBatchInterval",
            PpmError::InsufficientBatchSize => "urn:ietf:params:ppm:error:insufficientBatchSize",
            PpmError::PrivacyBudgetExceeded => "urn:ietf:params:ppm:error:privacyBudgetExceeded",
            PpmError::Crypto => "urn:ietf:params:ppm:error:crypto",
            PpmError::Codec => "urn:ietf:params:ppm:error:unrecognizedMessage",
            PpmError::UnrecognizedTask => "urn:ietf:params:ppm:error:unrecognizedTask",
        }
    }
}

/// The structured error document returned across a role boundary.
#[derive(Clone, Debug, PartialEq, Eq)]
pub struct ProblemDocument {
    pub type_url: Option<String>,
    pub title: Option<String>,
    pub status: Option<u16>,
    pub instance: Option<String>,
    pub detail: Option<String>,
}

/// Renders an error as the problem document that the named endpoint returns:
/// the error's stable URN, a bad-request status, and the endpoint label.
pub fn problem_document(err: PpmError, endpoint: &str) -> (d: ProblemDocument)
    ensures
        d.type_url matches Some(u) && u@ == err.spec_type_url(),
        d.status == Some(400u16),
        d.instance matches Some(i) && i@ == endpoint@,
        d.title is None,
        d.detail is None,
{
    ProblemDocument {
        type_url: Some(err.type_url().to_owned()),
        title: None,
        status: Some(400),
        instance: Some(endpoint.to_owned()),
        detail: None,
    }
}

} // verus!
