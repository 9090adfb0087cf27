//! Transcription jobs: running a model's pipeline on audio, timing it, and
//! turning its outcome into a response.
use vstd::prelude::*;
use crate::model::{AudioPipeline, WhisperModelInner};

verus! {

#[verifier::external_type_specification]
#[verifier::external_body]
pub struct ExInstant(std::time::Instant);

/// Relies on std::time::Instant::now: the current reading of the monotonic
/// clock.
#[verifier::external_body]
fn start_clock() -> std::time::Instant {
    std::time::Instant::now()
}

/// Relies on std::time::Instant::elapsed and Duration::as_nanos: the
/// nanoseconds since `start`, which the monotonic clock never makes negative.
#[verifier::external_body]
fn elapsed_nanos(start: &std::time::Instant) -> u128 {
    start.elapsed().as_nanos()
}

/// The text a job produced and how long it took.
#[derive(Clone, Debug, PartialEq, Eq)]
pub struct TranscribeResponse {
    pub output: String,
    /// Wall-clock time of the job, in nanoseconds.
    pub inference_nanos: u128,
}

/// Why a transcription produced no text.
#[derive(Clone, Debug, PartialEq, Eq)]
pub enum TranscribeError {
    /// The pipeline could not decode or transcribe the audio.
    Inference(String),
    /// The worker running the job ended without handing back a result.
    WorkerLost,
}

/// Anything that turns raw audio into text.
pub trait TranscribeHandler {
    fn run_transcribe(&mut self, input: Box<[u8]>, language_token: &str) -> Result<
        TranscribeResponse,
        TranscribeError,
    >;
}

/// Builds the caller's answer from what came back from a job (`None` when
/// nothing did) and the time it took.
pub fn complete_transcribe(message: Option<Result<String, String>>, inference_nanos: u128) -> (r:
    Result<TranscribeResponse, TranscribeError>)
    ensures
        r is Ok <==> (message is Some && message->Some_0 is Ok),
        r is Ok ==> r->Ok_0.output@ == message->Some_0->Ok_0@ && r->Ok_0.inference_nanos
            == inference_nanos,
        message is None ==> r == Err::<TranscribeResponse, TranscribeError>(
            TranscribeError::WorkerLost,
        ),
        message is Some && message->Some_0 is Err ==> r is Err && r->Err_0 is Inference
            && r->Err_0->Inference_0@ == message->Some_0->Err_0@,
{
    match message {
        Some(Ok(output)) => Ok(TranscribeResponse { output, inference_nanos }),
        Some(Err(reason)) => Err(TranscribeError::Inference(reason)),
        None => Err(TranscribeError::WorkerLost),
    }
}

/// One transcription, detached from the model it came from so that it can
/// run on a thread of its own: a fork of the pipeline, the audio and the
/// language token.
pub struct TranscribeJob<P> {
    pipeline: P,
    input: Box<[u8]>,
    language_token: String,
}

impl<P: AudioPipeline> TranscribeJob<P> {
    /// The audio the job transcribes.
    pub closed spec fn input(&self) -> Box<[u8]> {
        self.input
    }

    /// The language the job transcribes into.
    pub closed spec fn language_token(&self) -> Seq<char> {
        self.language_token@
    }

    /// Runs the forked pipeline on the job's own audio and token.
    pub fn run(self) -> (r: Result<String, String>) {
        let mut pipeline = self.pipeline;
        pipeline.transcribe(self.input, self.language_token.as_str())
    }
}

impl<P: AudioPipeline> WhisperModelInner<P> {
    /// Prepares a job on a fork of this model's pipeline, so that the job
    /// shares no mutable state with the model or with other jobs.
    pub fn isolated_job(&self, input: Box<[u8]>, language_token: &str) -> (r: TranscribeJob<P>)
        ensures
            r.input() == input,
            r.language_token() == language_token@,
    {
        TranscribeJob {
            pipeline: self.pipeline_ref().fork(),
            input,
            language_token: language_token.to_owned(),
        }
    }

    /// Transcribes on the caller's thread with the model's own pipeline,
    /// timing the call.
    pub fn transcribe_inline(&mut self, input: Box<[u8]>, language_token: &str) -> (r: Result<
        TranscribeResponse,
        TranscribeError,
    >)
        ensures
            r is Err ==> r->Err_0 is Inference,
            final(self).base_view() == old(self).base_view(),
    {
        let start = start_clock();
        let outcome = self.pipeline_mut().transcribe(input, language_token);
        let inference_nanos = elapsed_nanos(&start);
        complete_transcribe(Some(outcome), inference_nanos)
    }
}

/// Runs inline: the pipeline works on the calling thread, which it blocks
/// until the text is ready. A caller on an async runtime's worker thread
/// blocks that worker; such a caller should hand the job from
/// `isolated_job` to a thread of its own instead.
impl<P: AudioPipeline> TranscribeHandler for WhisperModelInner<P> {
    fn run_transcribe(&mut self, input: Box<[u8]>, language_token: &str) -> Result<
        TranscribeResponse,
        TranscribeError,
    > {
        self.transcribe_inline(input, language_token)
    }
}

} // verus!
