//! The closed set of failures that the engine reports.

use vstd::prelude::*;

verus! {

/// What can go wrong. Ingestion failures name the audio window by its
/// index; a failed transcription keeps the service's text verbatim; low
/// confidence carries the measured standard deviation in hundredths of a
/// word.
#[derive(Debug)]
pub enum Error {
    DurationUnavailable,
    ChunkExtractionFailed(u64),
    TranscriptionFailed(u64, String),
    ProjectLoadMalformed,
    SerializationFailed,
    IoFailed,
    ClipboardUnavailable,
    UnknownCommand,
    InsufficientAdjustmentSamples,
    LowCorrectionConfidence(u64),
}

} // verus!
