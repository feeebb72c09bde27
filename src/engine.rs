use vstd::prelude::*;

use crate::formats::{ExportFile, ImageFormat};
use crate::output_format::OutputFormatDescriptor;

verus! {

/// Padding around the scene when zooming to fit, in hundredths of the view.
pub const ZOOM_PADDING_HUNDREDTHS: u32 = 10;

/// A span of the program text, used to place a diagnostic.
#[derive(Clone, Copy, Debug, PartialEq, Eq, Structural, Hash, Default)]
pub struct SourceRange {
    pub start: usize,
    pub end: usize,
}

/// An operation sent to the engine.
#[derive(Clone, Copy, Debug, PartialEq, Eq)]
pub enum ModelingCommand {
    /// Move the camera so that the whole scene fills the view with the given
    /// padding.
    ZoomToFit { padding_hundredths: u32, animated: bool },
    /// Render the current view to an image.
    TakeSnapshot { format: ImageFormat },
    /// Write the scene to files. No entities are named explicitly, so the
    /// format's default selection applies.
    Export { format: OutputFormatDescriptor },
}

/// What the engine answered to one command.
#[derive(Clone, Debug, PartialEq, Eq)]
pub enum EngineResponse {
    /// A modeling response to a snapshot request, with the image's bytes.
    Snapshot { contents: Vec<u8> },
    /// An export response, with the files written.
    Export { files: Vec<ExportFile> },
    /// Any other modeling response, described for diagnosis.
    Modeling { description: String },
    /// A response of any other category, described for diagnosis.
    Other { description: String },
}

/// Why a call failed.
#[derive(Clone, Debug, PartialEq, Eq)]
pub enum CallError {
    /// The session could not be configured: no API token is set.
    MissingCredential,
    /// The program text did not parse.
    Parse { message: String, range: SourceRange },
    /// The connection failed or timed out.
    Transport { message: String },
    /// The engine answered with a shape that does not fit the command issued.
    UnexpectedResponse { response: EngineResponse },
    /// The engine rejected a command that the program implied.
    Execution { message: String, range: SourceRange },
    /// An event arrived that the call was not waiting for.
    UnexpectedEvent,
}

/// The zoom-to-fit issued before a snapshot: fixed padding, not animated.
pub open spec fn zoom_before_snapshot() -> ModelingCommand {
    ModelingCommand::ZoomToFit { padding_hundredths: ZOOM_PADDING_HUNDREDTHS, animated: false }
}

/// What a snapshot request's response yields: the image bytes of a snapshot
/// response, and a protocol mismatch carrying the response for any other.
pub open spec fn snapshot_outcome(response: EngineResponse) -> Result<Vec<u8>, CallError> {
    match response {
        EngineResponse::Snapshot { contents } => Ok(contents),
        _ => Err(CallError::UnexpectedResponse { response }),
    }
}

/// What an export request's response yields: the files of an export
/// response, and a protocol mismatch carrying the response for any other.
pub open spec fn export_outcome(response: EngineResponse) -> Result<Vec<ExportFile>, CallError> {
    match response {
        EngineResponse::Export { files } => Ok(files),
        _ => Err(CallError::UnexpectedResponse { response }),
    }
}

/// Unwraps the image of a snapshot response; any other response is a
/// protocol mismatch.
pub fn snapshot_contents(response: EngineResponse) -> (r: Result<Vec<u8>, CallError>)
    ensures
        r == snapshot_outcome(response),
{
    match response {
        EngineResponse::Snapshot { contents } => Ok(contents),
        _ => Err(CallError::UnexpectedResponse { response }),
    }
}

/// Unwraps the files of an export response; any other response is a
/// protocol mismatch.
pub fn exported_files(response: EngineResponse) -> (r: Result<Vec<ExportFile>, CallError>)
    ensures
        r == export_outcome(response),
{
    match response {
        EngineResponse::Export { files } => Ok(files),
        _ => Err(CallError::UnexpectedResponse { response }),
    }
}

} // verus!
