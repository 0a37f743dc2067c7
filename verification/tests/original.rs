use tensor_guardian::factory::{BackendSupport, PlatformBackendFactory};
use tensor_guardian::metal::{
    estimate_gpu_cores, is_apple_silicon, AneBackend, AneGeneration, MetalBackend, MetalBackendFactory, MetalGpu,
};
use tensor_guardian::tpu::{detect_cloud_tpu, parse_chips_from_type, TpuBackendType, TpuHealth};

#[test]
fn test_ane_generation_from_machine() {
    assert_eq!(AneGeneration::from_machine("MacBookAir10,1"), AneGeneration::Gen1);
    assert_eq!(AneGeneration::from_machine("Mac14,2"), AneGeneration::Gen3);
    assert_eq!(AneGeneration::from_machine("Unknown"), AneGeneration::Unknown);
}

#[test]
fn test_ane_availability() {
    // Should not panic
    let _ = AneBackend::is_available(false, is_apple_silicon(None));
}

#[test]
fn test_estimate_gpu_cores() {
    let cores = estimate_gpu_cores("MacBookAir10,1");
    assert_eq!(cores, 7);

    let cores = estimate_gpu_cores("MacBookPro18,1");
    assert_eq!(cores, 16);

    let cores = estimate_gpu_cores("Unknown");
    assert_eq!(cores, 8); // Default
}

#[test]
fn test_detect_gpus() {
    let result = MetalGpu::detect_gpus(None, false);
    // Should not panic on any platform
    let _ = result;
}

#[test]
fn test_metal_backend_is_available() {
    // Should not panic on any platform
    let _ = MetalBackend::is_available(false, false);
}

#[test]
fn test_factory_try_create() {
    // Should not panic
    let _ = MetalBackendFactory::try_create(false, false);
}

#[test]
fn test_is_apple_silicon() {
    // Should not panic on any platform
    let _ = is_apple_silicon(None);
}

#[test]
fn test_parse_chips_from_type() {
    assert_eq!(parse_chips_from_type("v4-8"), Some(4));
    assert_eq!(parse_chips_from_type("v4-32"), Some(16));
    assert_eq!(parse_chips_from_type("v5litepod-4"), Some(2));
    assert_eq!(parse_chips_from_type("invalid"), None);
}

#[test]
fn test_tpu_health() {
    let health = TpuHealth::Healthy;
    assert!(matches!(health, TpuHealth::Healthy));
}

#[test]
fn test_backend_type() {
    assert_eq!(TpuBackendType::Local, TpuBackendType::Local);
    assert_ne!(TpuBackendType::Local, TpuBackendType::Cloud);
}

#[test]
#[allow(unused_comparisons)]
fn test_available_backends() {
    let available = PlatformBackendFactory::available_backends(BackendSupport::default());
    // Should return at least empty vec
    assert!(available.len() >= 0);
}

#[test]
fn test_detect_cloud_tpu() {
    // Should not panic
    let _ = detect_cloud_tpu(None, None, false);
}
