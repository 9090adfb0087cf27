//! The model descriptor, the pipeline a model wrapper drives, and building a
//! wrapper from a model repository.
use vstd::prelude::*;

verus! {

#[verifier::external_type_specification]
#[verifier::external_body]
pub struct ExApi(hf_hub::api::sync::Api);

#[verifier::external_type_specification]
#[verifier::external_body]
pub struct ExApiRepo(hf_hub::api::sync::ApiRepo);

#[verifier::external_type_specification]
#[verifier::external_body]
pub struct ExRepo(hf_hub::Repo);

#[verifier::external_type_specification]
pub struct ExRepoType(hf_hub::RepoType);

#[verifier::external_type_specification]
#[verifier::external_body]
pub struct ExStdRng(rand::rngs::StdRng);

/// Relies on hf_hub::Repo::with_revision: it only gathers its arguments into
/// the repository's address.
pub assume_specification[ hf_hub::Repo::with_revision ](
    repo_id: String,
    repo_type: hf_hub::RepoType,
    revision: String,
) -> hf_hub::Repo;

/// Relies on hf_hub::api::sync::Api::repo: a handle on one repository, made
/// without any network access.
pub assume_specification[ hf_hub::api::sync::Api::repo ](
    api: &hf_hub::api::sync::Api,
    repo: hf_hub::Repo,
) -> hf_hub::api::sync::ApiRepo;

/// Relies on rand's `SeedableRng::from_seed` for `StdRng`: a generator whose
/// stream is fixed by the seed.
#[verifier::external_body]
fn seeded_rng(seed: [u8; 32]) -> rand::rngs::StdRng {
    <rand::rngs::StdRng as rand::SeedableRng>::from_seed(seed)
}

/// Every byte of the seed each pipeline gets, so that two loads of one model
/// transcribe alike.
pub const MODEL_SEED_BYTE: u8 = 0;

/// The seed of every pipeline's random source: fixed, never drawn from the
/// clock or the system.
pub fn model_seed() -> (r: [u8; 32])
    ensures
        forall|i: int| 0 <= i < 32 ==> r@[i] == 0u8,
{
    [MODEL_SEED_BYTE; 32]
}

/// Pipelines are always loaded ready to decode.
pub fn decode_ready() -> (r: bool)
    ensures
        r,
{
    true
}

/// Which model to load: a repository and a revision of it.
#[derive(Clone, Debug, PartialEq, Eq)]
pub struct ModelBase {
    pub repo_id: String,
    pub repo_revision: String,
}

impl View for ModelBase {
    type V = (Seq<char>, Seq<char>);

    open spec fn view(&self) -> (Seq<char>, Seq<char>) {
        (self.repo_id@, self.repo_revision@)
    }
}

impl ModelBase {
    pub fn new(repo_id: String, repo_revision: String) -> (r: Self)
        ensures
            r.repo_id@ == repo_id@,
            r.repo_revision@ == repo_revision@,
    {
        ModelBase { repo_id, repo_revision }
    }

    /// A field-by-field copy.
    pub fn duplicate(&self) -> (r: Self)
        ensures
            r@ == self@,
    {
        ModelBase { repo_id: self.repo_id.clone(), repo_revision: self.repo_revision.clone() }
    }
}

/// The model itself: weights, decoding and a seeded random source. Loading
/// and decoding are up to the implementation.
pub trait AudioPipeline: Sized {
    /// Loads the model found in `repo`, decoding-ready when asked, drawing
    /// randomness from `rng` alone.
    fn with_model(
        repo: &hf_hub::api::sync::ApiRepo,
        decode_ready: bool,
        rng: rand::rngs::StdRng,
    ) -> Result<Self, String>;

    /// Turns raw audio into text in the language named by the token.
    fn transcribe(&mut self, input: Box<[u8]>, language_token: &str) -> Result<String, String>;

    /// A copy with state of its own, safe to hand to another thread.
    fn fork(&self) -> Self;
}

/// The model could not be loaded; no wrapper was made.
#[derive(Clone, Debug, PartialEq, Eq)]
pub struct ModelLoadError {
    pub repo_id: String,
    pub repo_revision: String,
    pub reason: String,
}

/// A speech-to-text model ready to transcribe.
pub struct WhisperModelInner<P> {
    pub base: ModelBase,
    generator_pipeline: P,
}

impl<P: AudioPipeline> WhisperModelInner<P> {
    /// Which model the wrapper holds.
    pub closed spec fn base_view(&self) -> (Seq<char>, Seq<char>) {
        self.base@
    }

    /// The pipeline the wrapper drives.
    pub closed spec fn pipeline(&self) -> P {
        self.generator_pipeline
    }

    /// Which model the wrapper holds, for callers outside this module, to
    /// whom the pipeline field keeps the struct's fields out of view.
    pub fn model_base(&self) -> (r: &ModelBase)
        ensures
            r@ == self.base_view(),
    {
        &self.base
    }

    /// The pipeline, to read.
    pub fn pipeline_ref(&self) -> (r: &P)
        ensures
            *r == self.pipeline(),
    {
        &self.generator_pipeline
    }

    /// The pipeline, to drive; the model it belongs to stays the same.
    pub(crate) fn pipeline_mut(&mut self) -> (r: &mut P)
        ensures
            *r == old(self).pipeline(),
            final(self).pipeline() == *final(r),
            final(self).base_view() == old(self).base_view(),
    {
        &mut self.generator_pipeline
    }

    /// Loads the model named by `base` from its repository at its revision,
    /// with a pipeline made `decode_ready()` and seeded by `model_seed()`.
    pub fn new(api: hf_hub::api::sync::Api, base: &ModelBase) -> (r: Result<Self, ModelLoadError>)
        ensures
            r is Ok ==> r->Ok_0.base_view() == base@,
            r is Err ==> r->Err_0.repo_id@ == base.repo_id@ && r->Err_0.repo_revision@
                == base.repo_revision@,
    {
        let repo = api.repo(
            hf_hub::Repo::with_revision(
                base.repo_id.clone(),
                hf_hub::RepoType::Model,
                base.repo_revision.clone(),
            ),
        );
        let loaded = P::with_model(&repo, decode_ready(), seeded_rng(model_seed()));
        Self::assemble(base, loaded)
    }

    /// Packages a load's outcome: the pipeline with a copy of `base`, or the
    /// load's reason with the model it was for.
    pub fn assemble(base: &ModelBase, loaded: Result<P, String>) -> (r: Result<Self, ModelLoadError>)
        ensures
            r is Ok <==> loaded is Ok,
            r is Ok ==> r->Ok_0.base_view() == base@ && r->Ok_0.pipeline() == loaded->Ok_0,
            r is Err ==> r->Err_0.repo_id@ == base.repo_id@ && r->Err_0.repo_revision@
                == base.repo_revision@ && r->Err_0.reason@ == loaded->Err_0@,
    {
        match loaded {
            Ok(generator_pipeline) => Ok(WhisperModelInner { base: base.duplicate(), generator_pipeline }),
            Err(reason) => {
                let copy = base.duplicate();
                Err(ModelLoadError { repo_id: copy.repo_id, repo_revision: copy.repo_revision, reason })
            },
        }
    }
}

} // verus!
