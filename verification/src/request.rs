//! The incoming print request and its validity check.

use vstd::prelude::*;

verus! {

/// A request to print one invoice document.
///
/// Exactly one of `payload` and `source_path` must be present: either the
/// document's bytes, to be written to a temporary artifact, or the path of a
/// file the caller already produced. The identifier only derives a
/// collision-resistant artifact filename; it is never validated against
/// business data, and callers must keep it unique per in-flight request.
#[derive(Debug, PartialEq, Eq)]
pub struct PrintRequest {
    pub payload: Option<Vec<u8>>,
    pub source_path: Option<String>,
    pub identifier: String,
}

impl PrintRequest {
    /// The request carries a document payload and no source path.
    pub open spec fn is_payload(self) -> bool {
        self.payload is Some && self.source_path is None
    }

    /// The request carries a source path and no document payload.
    pub open spec fn is_source(self) -> bool {
        self.payload is None && self.source_path is Some
    }

    /// A request is valid when it carries exactly one of the two.
    pub open spec fn is_valid(self) -> bool {
        self.is_payload() || self.is_source()
    }

    /// The payload bytes, where present.
    pub open spec fn payload_view(self) -> Seq<u8> {
        self.payload->0@
    }

    /// The source path's characters, where present.
    pub open spec fn source_path_view(self) -> Seq<char> {
        self.source_path->0@
    }

    /// Builds a payload-carrying request.
    pub fn for_payload(payload: Vec<u8>, identifier: String) -> (r: PrintRequest)
        ensures
            r.is_payload(),
            r.payload_view() == payload@,
            r.identifier@ == identifier@,
    {
        PrintRequest { payload: Some(payload), source_path: None, identifier }
    }

    /// Builds a request around a caller-supplied file path.
    pub fn for_source_path(source_path: String, identifier: String) -> (r: PrintRequest)
        ensures
            r.is_source(),
            r.source_path_view() == source_path@,
            r.identifier@ == identifier@,
    {
        PrintRequest { payload: None, source_path: Some(source_path), identifier }
    }

    /// Checks that exactly one of payload and source path is present.
    pub fn validate(&self) -> (r: bool)
        ensures
            r == self.is_valid(),
    {
        match (&self.payload, &self.source_path) {
            (Some(_), None) => true,
            (None, Some(_)) => true,
            _ => false,
        }
    }
}

} // verus!
