use vstd::prelude::*;

verus! {

/// Failure of one pipeline stage. Every stage failure aborts the pipeline
/// at once: no stage retries, and no partial result is returned.
#[derive(Clone, Copy, Debug, PartialEq, Eq, Structural)]
pub enum StageError {
    /// The screen-capture source rejected the region or failed outright.
    CaptureSourceError,
    /// The raw frame is shorter than its declared dimensions demand.
    BufferTooSmall,
    /// Creating the destination directory was denied.
    DirectoryCreateFailed,
    /// PNG encoding or the file write failed.
    EncodeOrWriteFailed,
    /// The OCR backend could not be constructed.
    EngineInitFailed,
    /// The persisted image could not be loaded for recognition.
    ImageLoadFailed,
    /// Text extraction itself errored internally.
    RecognitionFailed,
    /// The inference server could not be reached.
    InferenceUnavailable,
    /// The inference server answered with an application-level error.
    InferenceError,
}

} // verus!
