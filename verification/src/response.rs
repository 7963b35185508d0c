//! The response returned to AppSync from a resolver invocation: either data or
//! an error, never both.
use crate::errors::AppsyncError;
use vstd::prelude::*;

verus! {

/// JSON payloads flow through the dispatch protocol opaquely; the library
/// never inspects them. Relies on serde_json::Value being an ordinary owned
/// value.
#[verifier::external_type_specification]
#[verifier::external_body]
pub struct ExValue(serde_json::Value);

/// A resolver response: successful data or error information, never both.
pub struct AppsyncResponse {
    /// The resolved data on success.
    pub data: Option<serde_json::Value>,
    /// The error on failure.
    pub error: Option<AppsyncError>,
}

impl AppsyncResponse {
    /// A response carries data or an error, never both.
    pub open spec fn wf(self) -> bool {
        !(self.data is Some && self.error is Some)
    }

    /// A success response carries exactly the given data and no error.
    pub fn from_data(value: serde_json::Value) -> (r: AppsyncResponse)
        ensures
            r.wf(),
            r.data == Some(value),
            r.error is None,
    {
        AppsyncResponse { data: Some(value), error: None }
    }

    /// A failure response carries exactly the given error and no data.
    pub fn from_error(e: AppsyncError) -> (r: AppsyncResponse)
        ensures
            r.wf(),
            r.data is None,
            r.error == Some(e),
    {
        AppsyncResponse { data: None, error: Some(e) }
    }

    /// The fixed response for a request that cannot be authorized.
    pub fn unauthorized() -> (r: AppsyncResponse)
        ensures
            r.wf(),
            r.data is None,
            r.error matches Some(e) && e.error_type@ == "Unauthorized"@ && e.error_message@
                == "This operation cannot be authorized"@,
    {
        AppsyncResponse::from_error(
            AppsyncError::new("Unauthorized", "This operation cannot be authorized"),
        )
    }
}

impl From<serde_json::Value> for AppsyncResponse {
    /// A JSON value converts into a success response.
    fn from(value: serde_json::Value) -> (r: AppsyncResponse) {
        AppsyncResponse::from_data(value)
    }
}

impl vstd::std_specs::convert::FromSpecImpl<serde_json::Value> for AppsyncResponse {
    open spec fn obeys_from_spec() -> bool {
        true
    }

    open spec fn from_spec(value: serde_json::Value) -> AppsyncResponse {
        AppsyncResponse { data: Some(value), error: None }
    }
}

impl From<AppsyncError> for AppsyncResponse {
    /// An error converts into a failure response.
    fn from(e: AppsyncError) -> (r: AppsyncResponse) {
        AppsyncResponse::from_error(e)
    }
}

impl vstd::std_specs::convert::FromSpecImpl<AppsyncError> for AppsyncResponse {
    open spec fn obeys_from_spec() -> bool {
        true
    }

    open spec fn from_spec(e: AppsyncError) -> AppsyncResponse {
        AppsyncResponse { data: None, error: Some(e) }
    }
}

} // verus!
