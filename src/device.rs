//! Choosing the compute device, and remembering the choice.
use vstd::prelude::*;

verus! {

#[verifier::external_type_specification]
#[verifier::external_body]
pub struct ExCudaDevice(candle_core::CudaDevice);

#[verifier::external_type_specification]
#[verifier::external_body]
pub struct ExMetalDevice(candle_core::MetalDevice);

#[verifier::external_type_specification]
pub struct ExDevice(candle_core::Device);

#[verifier::external_type_specification]
#[verifier::external_body]
pub struct ExCandleError(candle_core::Error);

/// Relies on candle_core::utils::cuda_is_available: whether this build of
/// candle has its CUDA backend.
pub assume_specification[ candle_core::utils::cuda_is_available ]() -> bool;

/// Relies on candle_core::utils::metal_is_available: whether this build of
/// candle has its Metal backend.
pub assume_specification[ candle_core::utils::metal_is_available ]() -> bool;

/// Relies on candle_core::Device::new_cuda: on success it is `Device::Cuda`.
pub assume_specification[ candle_core::Device::new_cuda ](ordinal: usize) -> (r: Result<
    candle_core::Device,
    candle_core::Error,
>)
    ensures
        r is Ok ==> r->Ok_0 is Cuda,
;

/// Relies on candle_core::Device::new_metal: on success it is `Device::Metal`.
pub assume_specification[ candle_core::Device::new_metal ](ordinal: usize) -> (r: Result<
    candle_core::Device,
    candle_core::Error,
>)
    ensures
        r is Ok ==> r->Ok_0 is Metal,
;

/// Relies on the derived `Clone` of candle_core::Device: each variant clones
/// into the same variant.
pub assume_specification[ <candle_core::Device as Clone>::clone ](d: &candle_core::Device) -> (r:
    candle_core::Device)
    ensures
        backend_of(r) == backend_of(*d),
;

/// The kind of hardware a device runs on.
#[derive(Clone, Copy, Debug, PartialEq, Eq, Structural)]
pub enum Backend {
    /// An NVIDIA GPU through CUDA.
    Cuda,
    /// An Apple GPU through Metal.
    Metal,
    /// The host processor.
    Cpu,
}

/// The backend a candle device runs on.
pub open spec fn backend_of(d: candle_core::Device) -> Backend {
    match d {
        candle_core::Device::Cpu => Backend::Cpu,
        candle_core::Device::Cuda(_) => Backend::Cuda,
        candle_core::Device::Metal(_) => Backend::Metal,
    }
}

/// CUDA first, then Metal, then the host processor.
pub open spec fn preferred_backend(cuda_available: bool, metal_available: bool) -> Backend {
    if cuda_available {
        Backend::Cuda
    } else if metal_available {
        Backend::Metal
    } else {
        Backend::Cpu
    }
}

/// Picks the backend to use from what the build offers.
pub fn select_backend(cuda_available: bool, metal_available: bool) -> (r: Backend)
    ensures
        r == preferred_backend(cuda_available, metal_available),
{
    if cuda_available {
        Backend::Cuda
    } else if metal_available {
        Backend::Metal
    } else {
        Backend::Cpu
    }
}

/// A selected backend that could not be brought up. There is no fallback to
/// another backend once one has been selected.
#[derive(Debug)]
pub struct DeviceInitError {
    /// The backend that failed.
    pub backend: Backend,
    /// What candle reported.
    pub source: candle_core::Error,
}

/// Brings up the first device of the given backend.
pub fn open_backend(backend: Backend) -> (r: Result<candle_core::Device, DeviceInitError>)
    ensures
        r is Ok ==> backend_of(r->Ok_0) == backend,
        r is Err ==> r->Err_0.backend == backend && backend != Backend::Cpu,
        backend == Backend::Cpu ==> r is Ok,
{
    let opened = match backend {
        Backend::Cuda => candle_core::Device::new_cuda(0),
        Backend::Metal => candle_core::Device::new_metal(0),
        Backend::Cpu => Ok(candle_core::Device::Cpu),
    };
    match opened {
        Ok(device) => Ok(device),
        Err(source) => Err(DeviceInitError { backend, source }),
    }
}

/// The message shown when no GPU backend is compiled in, naming the build
/// flag that would enable one.
pub fn gpu_build_hint(apple_silicon: bool) -> (r: &'static str)
    ensures
        apple_silicon ==> r@ == "Running on CPU, to run on GPU(metal), build with `--features metal`"@,
        !apple_silicon ==> r@ == "Running on CPU, to run on GPU, build with `--features cuda`"@,
{
    if apple_silicon {
        "Running on CPU, to run on GPU(metal), build with `--features metal`"
    } else {
        "Running on CPU, to run on GPU, build with `--features cuda`"
    }
}

/// What a resolver holds after one resolution: a selection, once made, is
/// kept; otherwise the preferred backend is kept if it could be opened.
pub open spec fn selection_after(
    selected: Option<Backend>,
    cuda_available: bool,
    metal_available: bool,
    opened: bool,
) -> Option<Backend> {
    if selected is Some {
        selected
    } else if opened {
        Some(preferred_backend(cuda_available, metal_available))
    } else {
        None
    }
}

/// What a resolver holds after a run of resolutions, each given as the
/// availability of CUDA and of Metal it was handed and whether it returned a
/// device.
pub open spec fn selection_after_all(
    selected: Option<Backend>,
    calls: Seq<(bool, bool, bool)>,
) -> Option<Backend>
    decreases calls.len(),
{
    if calls.len() == 0 {
        selected
    } else {
        selection_after_all(
            selection_after(selected, calls[0].0, calls[0].1, calls[0].2),
            calls.drop_first(),
        )
    }
}

/// Once a backend is selected, any number of further resolutions, whatever
/// availability they are handed, keep it: each returns a device of that
/// backend and the selection never changes.
pub proof fn lemma_selection_is_stable(selected: Option<Backend>, calls: Seq<(bool, bool, bool)>)
    requires
        selected is Some,
    ensures
        selection_after_all(selected, calls) == selected,
        forall|i: int|
            0 <= i <= calls.len() ==> #[trigger] selection_after_all(selected, calls.take(i))
                == selected,
{
    lemma_selection_kept(selected, calls);
    assert forall|i: int| 0 <= i <= calls.len() implies #[trigger] selection_after_all(
        selected,
        calls.take(i),
    ) == selected by {
        lemma_selection_kept(selected, calls.take(i));
    }
}

/// From a fresh resolver, the first resolution that returns a device fixes
/// the backend for good: it is the preferred one for the availability that
/// resolution was handed, whatever comes after.
pub proof fn lemma_first_device_decides(calls: Seq<(bool, bool, bool)>)
    requires
        calls.len() >= 1,
        calls[0].2,
    ensures
        selection_after_all(None, calls) == Some(preferred_backend(calls[0].0, calls[0].1)),
{
    lemma_selection_kept(Some(preferred_backend(calls[0].0, calls[0].1)), calls.drop_first());
}

proof fn lemma_selection_kept(selected: Option<Backend>, calls: Seq<(bool, bool, bool)>)
    requires
        selected is Some,
    ensures
        selection_after_all(selected, calls) == selected,
    decreases calls.len(),
{
    if calls.len() > 0 {
        lemma_selection_kept(selected, calls.drop_first());
    }
}

/// Remembers the one device chosen for the lifetime of its owner.
pub struct DeviceResolver {
    selected: Option<candle_core::Device>,
}

impl DeviceResolver {
    /// The backend chosen so far, if any.
    pub closed spec fn selection(&self) -> Option<Backend> {
        match self.selected {
            Some(d) => Some(backend_of(d)),
            None => None,
        }
    }

    /// A resolver that has chosen nothing yet.
    pub fn new() -> (r: Self)
        ensures
            r.selection() is None,
    {
        DeviceResolver { selected: None }
    }

    /// Whether a device has been chosen.
    pub fn is_resolved(&self) -> (r: bool)
        ensures
            r == self.selection() is Some,
    {
        self.selected.is_some()
    }

    /// Returns the chosen device; on the first call, chooses it from the
    /// given availability and keeps it if it could be opened. Later calls
    /// ignore the availability they are given.
    pub fn resolve_probed(&mut self, cuda_available: bool, metal_available: bool) -> (r: Result<
        candle_core::Device,
        DeviceInitError,
    >)
        ensures
            old(self).selection() is Some ==> r is Ok && final(self).selection() == old(
                self,
            ).selection(),
            final(self).selection() == selection_after(
                old(self).selection(),
                cuda_available,
                metal_available,
                r is Ok,
            ),
            r is Ok ==> final(self).selection() == Some(backend_of(r->Ok_0)),
            r is Err ==> old(self).selection() is None && r->Err_0.backend == preferred_backend(
                cuda_available,
                metal_available,
            ) && r->Err_0.backend != Backend::Cpu,
    {
        match &self.selected {
            Some(device) => Ok(device.clone()),
            None => {
                let backend = select_backend(cuda_available, metal_available);
                match open_backend(backend) {
                    Ok(device) => {
                        let handed_out = device.clone();
                        self.selected = Some(device);
                        Ok(handed_out)
                    },
                    Err(e) => Err(e),
                }
            },
        }
    }
}

/// Returns the resolver's device, choosing it on the first call from what
/// this build of candle offers. Once a device is chosen the backends are not
/// probed again.
pub fn accelerated_device_if_available(resolver: &mut DeviceResolver) -> (r: Result<
    candle_core::Device,
    DeviceInitError,
>)
    ensures
        old(resolver).selection() is Some ==> r is Ok && backend_of(r->Ok_0) == old(
            resolver,
        ).selection()->Some_0 && final(resolver).selection() == old(resolver).selection(),
        r is Ok ==> final(resolver).selection() == Some(backend_of(r->Ok_0)),
        r is Err ==> old(resolver).selection() is None && final(resolver).selection() is None
            && r->Err_0.backend != Backend::Cpu,
{
    if resolver.is_resolved() {
        return resolver.resolve_probed(false, false);
    }
    let cuda = candle_core::utils::cuda_is_available();
    let metal = candle_core::utils::metal_is_available();
    resolver.resolve_probed(cuda, metal)
}

} // verus!
