use whisper_core::device::{
    accelerated_device_if_available, gpu_build_hint, open_backend, select_backend, Backend,
    DeviceResolver,
};

#[test]
fn cuda_is_preferred_over_metal() {
    assert_eq!(select_backend(true, true), Backend::Cuda);
    assert_eq!(select_backend(true, false), Backend::Cuda);
}

#[test]
fn metal_is_used_without_cuda() {
    assert_eq!(select_backend(false, true), Backend::Metal);
}

#[test]
fn cpu_is_the_fallback() {
    assert_eq!(select_backend(false, false), Backend::Cpu);
}

#[test]
fn cpu_always_opens() {
    let device = open_backend(Backend::Cpu).unwrap();
    assert!(device.is_cpu());
}

#[test]
fn missing_cuda_is_an_init_error() {
    // this build of candle has no CUDA backend
    let err = open_backend(Backend::Cuda).unwrap_err();
    assert_eq!(err.backend, Backend::Cuda);
}

#[test]
fn selected_gpu_that_fails_is_not_replaced() {
    let mut resolver = DeviceResolver::new();
    let err = resolver.resolve_probed(true, true).unwrap_err();
    assert_eq!(err.backend, Backend::Cuda);
    assert!(!resolver.is_resolved());
}

#[test]
fn first_selection_is_kept() {
    let mut resolver = DeviceResolver::new();
    let first = resolver.resolve_probed(false, false).unwrap();
    assert!(first.is_cpu());
    assert!(resolver.is_resolved());
    for _ in 0..5 {
        // later availability is ignored
        let again = resolver.resolve_probed(true, true).unwrap();
        assert!(again.is_cpu());
    }
}

#[test]
fn repeated_resolution_returns_the_same_backend() {
    let mut resolver = DeviceResolver::new();
    let first = accelerated_device_if_available(&mut resolver).unwrap();
    assert!(resolver.is_resolved());
    for _ in 0..10 {
        let next = accelerated_device_if_available(&mut resolver).unwrap();
        assert!(next.same_device(&first));
    }
}

#[test]
fn hint_names_the_build_flag() {
    assert_eq!(
        gpu_build_hint(false),
        "Running on CPU, to run on GPU, build with `--features cuda`"
    );
    assert_eq!(
        gpu_build_hint(true),
        "Running on CPU, to run on GPU(metal), build with `--features metal`"
    );
}
