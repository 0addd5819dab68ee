//! Verified core of a screen-capture question-answering pipeline.
//!
//! A captured raw frame (blue-green-red-alpha bytes) is converted into an
//! RGB image, encoded as a PNG named by the local wall-clock second,
//! handed to an OCR engine, and the recognized text is sent to a local
//! language-model server. The data transformations and the stage-by-stage
//! control flow live here with their contracts; the host that performs
//! screen capture, file writes, OCR and the network call drives the
//! pipeline state machine from outside.

pub mod errors;
pub mod inference;
pub mod pipeline;
pub mod pixel;
pub mod png;
pub mod time;
