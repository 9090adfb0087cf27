//! Core of a speech-to-text inference service: one accelerator chosen once
//! per process, a model wrapper built from a versioned model repository, and
//! the bookkeeping around each transcription job.

pub mod device;
pub mod model;
pub mod transcribe;
