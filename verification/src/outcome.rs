//! The caller-visible result of a print request and the error taxonomy.
//!
//! Every failure surfaces synchronously to the caller; none is retried. The
//! caller receives either a success outcome (rendered as a small JSON object)
//! or a human-readable diagnostic string.

use vstd::prelude::*;

verus! {

/// The result of a successfully dispatched print request.
#[derive(Debug, PartialEq, Eq)]
pub struct PrintOutcome {
    pub success: bool,
    pub message: String,
}

/// Which step of writing the artifact failed.
#[derive(Clone, Copy, Debug, PartialEq, Eq)]
pub enum IoStage {
    /// Creating the dedicated temporary-files directory failed.
    CreateDir,
    /// Writing the payload into the artifact file failed.
    WriteFile,
}

/// A failure reported by the embedding application while it wrote the
/// artifact: which step failed and the platform's own diagnostic text.
#[derive(Debug, PartialEq, Eq)]
pub struct WriteFailure {
    pub stage: IoStage,
    pub detail: String,
}

/// Why a print request failed.
#[derive(Debug, PartialEq, Eq)]
pub enum PrintError {
    /// The request was malformed: it must carry exactly one of a document
    /// payload and a source path.
    InvalidRequest,
    /// The supplied source path does not name an existing file.
    NotFound { path: String },
    /// The artifact could not be written.
    Io { failure: WriteFailure },
    /// The external print mechanism could not be started at all.
    ProcessLaunch { detail: String },
    /// The external print mechanism ran but reported failure; carries the
    /// captured standard-error text.
    PrintCommand { stderr: String },
    /// The host is not a Windows system; no printing is attempted.
    UnsupportedPlatform,
}

impl PrintError {
    /// The human-readable diagnostic for this error.
    pub open spec fn spec_message(self) -> Seq<char> {
        match self {
            PrintError::InvalidRequest => {
                "Invalid print request: exactly one of document payload and source path must be given"@
            },
            PrintError::NotFound { path } => "Image file not found: "@ + path@,
            PrintError::Io { failure } => match failure.stage {
                IoStage::CreateDir => "Failed to create temp directory: "@ + failure.detail@,
                IoStage::WriteFile => "Failed to write invoice file: "@ + failure.detail@,
            },
            PrintError::ProcessLaunch { detail } => {
                "Failed to execute print command: "@ + detail@
            },
            PrintError::PrintCommand { stderr } => "Print command failed: "@ + stderr@,
            PrintError::UnsupportedPlatform => "Printing is only supported on Windows"@,
        }
    }

    /// Renders the diagnostic the caller sees on the failure path.
    pub fn message(&self) -> (r: String)
        ensures
            r@ == self.spec_message(),
    {
        match self {
            PrintError::InvalidRequest => String::from_str(
                "Invalid print request: exactly one of document payload and source path must be given",
            ),
            PrintError::NotFound { path } => {
                String::from_str("Image file not found: ").concat(path.as_str())
            },
            PrintError::Io { failure } => match failure.stage {
                IoStage::CreateDir => {
                    String::from_str("Failed to create temp directory: ")
                        .concat(failure.detail.as_str())
                },
                IoStage::WriteFile => {
                    String::from_str("Failed to write invoice file: ")
                        .concat(failure.detail.as_str())
                },
            },
            PrintError::ProcessLaunch { detail } => {
                String::from_str("Failed to execute print command: ").concat(detail.as_str())
            },
            PrintError::PrintCommand { stderr } => {
                String::from_str("Print command failed: ").concat(stderr.as_str())
            },
            PrintError::UnsupportedPlatform => String::from_str(
                "Printing is only supported on Windows",
            ),
        }
    }
}

/// The JSON text that serde_json produces for the two-field object
/// `{"success": .., "message": ..}`; a function of the two fields alone.
pub uninterp spec fn json_outcome_of(success: bool, message: Seq<char>) -> Seq<char>;

/// Relies on serde_json's `Display` for `Value` (its `to_string`): the
/// encoding of an object with the fields `success` and `message` is
/// deterministic, a function of the two field values alone.
#[verifier::external_body]
fn encode_outcome_json(success: bool, message: &str) -> (r: String)
    ensures
        r@ == json_outcome_of(success, message@),
{
    let mut fields = serde_json::Map::new();
    fields.insert("success".to_string(), serde_json::Value::Bool(success));
    fields.insert("message".to_string(), serde_json::Value::String(message.to_string()));
    serde_json::Value::Object(fields).to_string()
}

impl PrintOutcome {
    /// Renders the outcome as the JSON object the caller receives.
    pub fn to_json(&self) -> (r: String)
        ensures
            r@ == json_outcome_of(self.success, self.message@),
    {
        encode_outcome_json(self.success, self.message.as_str())
    }
}

/// Maps a finished dispatch to the command surface's result: the JSON text on
/// success, the diagnostic string on failure.
pub fn render_result(result: &Result<PrintOutcome, PrintError>) -> (r: Result<String, String>)
    ensures
        result is Ok ==> (r matches Ok(text) && text@ == json_outcome_of(
            result->Ok_0.success,
            result->Ok_0.message@,
        )),
        result is Err ==> (r matches Err(text) && text@ == result->Err_0.spec_message()),
{
    match result {
        Ok(outcome) => Ok(outcome.to_json()),
        Err(error) => Err(error.message()),
    }
}

} // verus!
