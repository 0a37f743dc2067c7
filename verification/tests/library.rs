use tensor_guardian::aggregates::{Accelerator, MetricStream, Sample};
use tensor_guardian::attestation::{AttestationError, AttestationGenerator, SlsaProvenance};
use tensor_guardian::application::commands::{
    collect_target, metric_events, CollectMetrics, DiscoverAccelerators, DiscoveryRun, DiscoveryStep,
};
use tensor_guardian::application::AppError;
use tensor_guardian::api::{overall_health, parse_accelerator_type, parse_metric_type, parse_unit};
use tensor_guardian::collection::{metrics_for_all, metrics_under_sensors, Reading, SensorChoice};
use tensor_guardian::entities::{Metric, MetricValue, Sensor};
use tensor_guardian::errors::DomainError;
use tensor_guardian::config::{ExportConfig, LoggingConfig, RetentionPolicy, SamplingConfig, TuiConfig};
use tensor_guardian::events::DomainEvent;
use tensor_guardian::listing::{discovery_listing, ListingFormat};
use tensor_guardian::ids::{parse_accelerator_id, parse_sensor_id, AcceleratorId, SensorId};
use tensor_guardian::metal::{AneGeneration, MetalBackend, MetalSource};
use tensor_guardian::nvml::{
    convert_nvml_error, create_sensors_for_device, nvml_metrics, nvml_pci_bus_id, NvmlErrorKind, NvmlReadings,
};
use tensor_guardian::probes::tracepoint_target;
use tensor_guardian::policies::{HealthStatus, PolicyEngine};
use tensor_guardian::ports::{BackendHealth, BackendVersion};
use tensor_guardian::procfs::{parse_cpu_stat, parse_kb, parse_meminfo, MemInfo, ProcfsBackend};
use tensor_guardian::text::{lines, parse_u64, split_whitespace, IntErrorKind};
use tensor_guardian::tpu::{
    chip_index_from_name, choose_tpu_backend, cloud_chip_readings, create_tpu_sensors, discover_cloud_tpus,
    discover_local_tpus, pod_info_for, tpu_backend_name, tpu_metrics,
    get_chip_info, libtpu_chip_readings, local_tpu_metrics, TpuBackendType, TpuChipReadings,
};
use tensor_guardian::tui::{HistoryChart, KeyInput, SortMode, TuiState};
use tensor_guardian::value_objects::{
    AcceleratorType, F64Bits, Frequency, Labels, MemoryStats, MetricType, Power, Temperature, Timestamp, Unit, Utilization,
};

fn metric(value: u64) -> Metric {
    Metric::new(
        SensorId::new(),
        AcceleratorId::new(),
        MetricType::Utilization,
        MetricValue::Integer(value),
        Unit::Percent,
    )
}

fn integer_of(m: &Metric) -> u64 {
    match m.value {
        MetricValue::Integer(v) => v,
        _ => panic!("not an integer metric"),
    }
}

#[test]
fn whole_numbers_have_their_exact_double_encoding() {
    for n in [0u32, 1, 2, 3, 7, 30, 45, 65, 72, 95, 100, 175, 1200, 65535, 1 << 31, u32::MAX] {
        assert_eq!(f64::from_bits(F64Bits::from_whole(n).0), n as f64);
    }
}

#[test]
fn utilization_accepts_zero_to_a_hundred() {
    assert_eq!(Utilization::from_whole_percent(100).map(|u| f64::from_bits(u.percent.0)), Some(100.0));
    assert_eq!(Utilization::from_whole_percent(0).map(|u| f64::from_bits(u.percent.0)), Some(0.0));
    assert!(Utilization::from_whole_percent(101).is_none());
    assert_eq!(f64::from_bits(Temperature::from_whole_celsius(72).celsius.0), 72.0);
    assert_eq!(f64::from_bits(Power::from_whole_watts(175).watts.0), 175.0);
}

#[test]
fn memory_stats_free_is_what_is_left() {
    let m = MemoryStats::new(3, 10);
    assert_eq!((m.used_bytes, m.total_bytes, m.free_bytes), (3, 10, 7));
    let m = MemoryStats::new(12, 10);
    assert_eq!(m.free_bytes, 0);
}

#[test]
fn frequency_from_megahertz() {
    let f = Frequency::from_mhz(1410);
    assert_eq!(f.as_hertz(), 1_410_000_000);
    assert_eq!(f.as_mhz(), 1410);
}

#[test]
fn accelerator_id_text_parses_back() {
    let id = AcceleratorId::new();
    let text = id.to_string();
    assert_eq!(text.len(), 36);
    assert_eq!(text.as_bytes()[14], b'4');
    assert_eq!(parse_accelerator_id(&text), Ok(id));
    let sid = SensorId::new();
    assert_eq!(parse_sensor_id(&sid.to_string()), Ok(sid));
    assert!(parse_accelerator_id("not-a-uuid").is_err());
}

#[test]
fn added_sensor_is_found_and_removal_undoes_it() {
    let mut accel = Accelerator::new("GPU 0", AcceleratorType::NvidiaGpu, "nvml", "NVIDIA", "RTX 4090");
    let sensor = Sensor::new(accel.id, "gpu_temperature", MetricType::Temperature, Unit::Celsius);
    let sid = sensor.id;
    assert_eq!(accel.add_sensor(sensor), Ok(sid));
    assert_eq!(accel.get_sensor(sid).map(|s| s.name.clone()), Some("gpu_temperature".to_string()));
    assert_eq!(accel.sensor_id_for("gpu_temperature"), sid);
    assert!(accel.remove_sensor(sid).is_ok());
    assert!(accel.get_sensor(sid).is_none());
    assert!(matches!(accel.remove_sensor(sid), Err(DomainError::SensorNotFound(_))));
}

#[test]
fn metric_stream_keeps_the_newest_within_capacity() {
    let mut stream = MetricStream::new(AcceleratorId::new(), SensorId::new(), 3);
    for v in 1..=5u64 {
        stream.push(metric(v));
    }
    assert_eq!(stream.buffer.len(), 3);
    let kept: Vec<u64> = stream.buffer.iter().map(integer_of).collect();
    assert_eq!(kept, vec![3, 4, 5]);
    assert_eq!(stream.latest().map(integer_of), Some(5));
    let window: Vec<u64> = stream.window(2).iter().map(integer_of).collect();
    assert_eq!(window, vec![4, 5]);
    assert_eq!(stream.window(10).len(), 3);
}

#[test]
fn sample_finds_first_metric_of_a_type() {
    let accel_id = AcceleratorId::new();
    let metrics = vec![
        Metric::new(SensorId::new(), accel_id, MetricType::Utilization, MetricValue::Integer(1), Unit::Percent),
        Metric::new(
            SensorId::new(),
            accel_id,
            MetricType::MemoryUsed,
            MetricValue::Memory(MemoryStats::new(1, 4)),
            Unit::Bytes,
        ),
        Metric::new(SensorId::new(), accel_id, MetricType::Utilization, MetricValue::Integer(2), Unit::Percent),
    ];
    let sample = Sample::new(accel_id, metrics);
    assert_eq!(sample.get_metric(MetricType::Utilization).map(integer_of), Some(1));
    assert_eq!(sample.memory_stats(), Some(MemoryStats::new(1, 4)));
    assert!(sample.get_metric(MetricType::Power).is_none());
}

#[test]
fn tui_selection_wraps_and_moves_back() {
    let mut st = TuiState::new(3, 1000);
    st.handle_key(KeyInput::Up);
    assert_eq!(st.selected_accel, 2);
    st.handle_key(KeyInput::Down);
    assert_eq!(st.selected_accel, 0);
    st.handle_key(KeyInput::Down);
    st.handle_key(KeyInput::Up);
    assert_eq!(st.selected_accel, 0);
    st.handle_key(KeyInput::Char('s'));
    st.handle_key(KeyInput::Char('s'));
    st.handle_key(KeyInput::Char('s'));
    assert_eq!(st.sort_mode, SortMode::ByIndex);
    st.handle_key(KeyInput::Char('q'));
    assert!(!st.running);
}

#[test]
fn tui_refresh_interval_stays_in_bounds() {
    let mut st = TuiState::new(1, 300);
    st.handle_key(KeyInput::Char('+'));
    assert_eq!(st.refresh_interval_ms, 300);
    let mut st = TuiState::new(1, 9900);
    st.handle_key(KeyInput::Char('-'));
    assert_eq!(st.refresh_interval_ms, 10_000);
    st.handle_key(KeyInput::Char('+'));
    assert_eq!(st.refresh_interval_ms, 9750);
}

#[test]
fn history_chart_keeps_the_last_points() {
    let mut chart = HistoryChart::new(2);
    chart.push(1);
    chart.push(2);
    chart.push(3);
    assert_eq!(chart.values(), vec![2, 3]);
}

#[test]
fn stale_after_a_minute() {
    let engine = PolicyEngine::new();
    let accel = Accelerator::new("cpu", AcceleratorType::Cpu, "procfs", "Linux", "Generic CPU");
    let seen = accel.last_seen.nanos;
    assert_eq!(engine.accelerator_health_at(Timestamp::from_nanos(seen + 60_999_999_999), &accel), HealthStatus::Healthy);
    assert_eq!(engine.accelerator_health_at(Timestamp::from_nanos(seen + 61_000_000_000), &accel), HealthStatus::Stale);
}

#[test]
fn api_parses_names() {
    assert!(matches!(parse_accelerator_type("NvidiaGpu"), Some(AcceleratorType::NvidiaGpu)));
    assert!(parse_accelerator_type("quantum").is_none());
    assert!(matches!(parse_metric_type("Temperature"), Some(MetricType::Temperature)));
    assert!(matches!(parse_unit("Celsius"), Some(Unit::Celsius)));
    assert!(overall_health(&vec![BackendHealth::Healthy]));
    assert!(!overall_health(&vec![BackendHealth::Healthy, BackendHealth::Degraded { reason: "slow" }]));
}

#[test]
fn backend_version_text() {
    let v = BackendVersion { major: 1, minor: 2, patch: 3, git_hash: Some("abcdef123456".to_string()), build_date: None };
    assert_eq!(v.to_string(), "1.2.3-abcdef12");
    let v = BackendVersion { major: 0, minor: 1, patch: 0, git_hash: None, build_date: None };
    assert_eq!(v.to_string(), "0.1.0");
}

#[test]
fn domain_error_text() {
    assert_eq!(DomainError::BackendError("boom".to_string()).to_string(), "Backend error: boom");
}

#[test]
fn ane_generations() {
    assert_eq!(AneGeneration::from_machine("Mac15,3"), AneGeneration::Gen4);
    assert_eq!(AneGeneration::Gen1.core_count(), 16);
}

#[test]
fn text_splitting() {
    assert_eq!(split_whitespace("  MemTotal:   16 kB \t"), vec!["MemTotal:", "16", "kB"]);
    assert_eq!(lines("a\r\nb\n\nc\n"), vec!["a", "b", "", "c"]);
    assert!(lines("").is_empty());
}

#[test]
fn u64_parsing_matches_std() {
    for s in ["0", "+7", "18446744073709551615", "18446744073709551616", "", "+", "-", "-1", "1x", "99999999999999999999x"] {
        let ours = parse_u64(s);
        let theirs = s.parse::<u64>();
        match (ours, theirs) {
            (Ok(a), Ok(b)) => assert_eq!(a, b),
            (Err(k), Err(e)) => assert_eq!(k.message(), e.to_string(), "{s}"),
            (a, b) => panic!("{s}: {a:?} vs {b:?}"),
        }
    }
    assert_eq!(parse_u64("12a"), Err(IntErrorKind::InvalidDigit));
}

#[test]
fn meminfo_lines_parse() {
    let text = "MemTotal:       16384 kB\nMemFree:         4096 kB\nBuffers:          1024 kB\nCached:           2048 kB\nSwapTotal: 0 kB\n";
    let info = parse_meminfo(text).unwrap();
    assert_eq!(info, MemInfo { total_kb: 16384, free_kb: 4096, buffers_kb: 1024, cached_kb: 2048 });
    let stats = info.memory_stats();
    assert_eq!(stats.used_bytes, (16384 - 4096 - 1024 - 2048) * 1024);
    assert_eq!(stats.total_bytes, 16384 * 1024);
}

#[test]
fn meminfo_errors() {
    match parse_kb("MemTotal:") {
        Err(DomainError::BackendError(m)) => assert_eq!(m, "Invalid format"),
        other => panic!("{other:?}"),
    }
    match parse_meminfo("MemTotal: 12x kB\n") {
        Err(DomainError::BackendError(m)) => assert_eq!(m, "Parse error: invalid digit found in string"),
        other => panic!("{other:?}"),
    }
    match parse_kb("MemFree: 99999999999999999999 kB") {
        Err(DomainError::BackendError(m)) => assert_eq!(m, "Parse error: number too large to fit in target type"),
        other => panic!("{other:?}"),
    }
}

#[test]
fn cpu_stat_lines_parse() {
    let text = "cpu  10 5 20 300 4\ncpu0 x 1 2 3\nintr 1 2 3 4 5\ncpu1 1 2\n";
    let cpus = parse_cpu_stat(text);
    assert_eq!(cpus.len(), 2);
    assert_eq!((cpus[0].name.as_str(), cpus[0].user, cpus[0].system, cpus[0].idle), ("cpu", 10, 20, 300));
    assert_eq!(cpus[0].active(), 30);
    assert_eq!((cpus[1].name.as_str(), cpus[1].user, cpus[1].system, cpus[1].idle), ("cpu0", 0, 2, 3));
}

#[test]
fn procfs_discovers_one_cpu_and_collects() {
    let backend = ProcfsBackend::new().unwrap();
    assert_eq!(backend.backend_type(), "procfs");
    let accels = backend.discover();
    assert_eq!(accels.len(), 1);
    let accel = &accels[0];
    assert_eq!(accel.name, "cpu");
    assert_eq!(accel.sensors.len(), 2);
    let metrics = ProcfsBackend::collect_metrics(accel, MemoryStats::new(1, 2), Some(1234));
    assert_eq!(metrics.len(), 2);
    assert_eq!(metrics[0].sensor_id, accel.sensor_id_for("memory_usage"));
    assert_eq!(metrics[1].sensor_id, accel.sensor_id_for("cpu_utilization"));
    match metrics[1].value {
        MetricValue::Utilization(u) => assert_eq!(f64::from_bits(u.percent.0), 34.0),
        _ => panic!("not a utilization"),
    }
    assert!(matches!(ProcfsBackend::health(false), BackendHealth::Unhealthy { reason: "Cannot read /proc" }));
}

#[test]
fn readings_without_sensor_are_dropped_or_get_fresh_ids() {
    let mut accel = Accelerator::new("x", AcceleratorType::Cpu, "procfs", "Linux", "m");
    let s = Sensor::new(accel.id, "known", MetricType::Power, Unit::Watts);
    let sid = s.id;
    accel.add_sensor(s).unwrap();
    let readings = || {
        vec![
            Reading { sensor: SensorChoice::Named("unknown".to_string()), metric_type: MetricType::Power, value: MetricValue::Integer(1), unit: Unit::Watts },
            Reading { sensor: SensorChoice::Named("known".to_string()), metric_type: MetricType::Power, value: MetricValue::Integer(2), unit: Unit::Watts },
        ]
    };
    let kept = metrics_under_sensors(&accel, readings());
    assert_eq!(kept.len(), 1);
    assert_eq!(kept[0].sensor_id, sid);
    assert_eq!(integer_of(&kept[0]), 2);
    let all = metrics_for_all(&accel, readings());
    assert_eq!(all.len(), 2);
    assert_ne!(all[0].sensor_id, sid);
    assert_eq!(all[1].sensor_id, sid);
}

#[test]
fn metal_gpu_metrics_follow_thermal_state() {
    let mut accel = Accelerator::new("Apple GPU", AcceleratorType::AppleGpu, "metal", "Apple", "M2");
    for s in MetalBackend::new(true, true).unwrap().create_gpu_sensors(accel.id) {
        accel.add_sensor(s).unwrap();
    }
    let metrics = MetalBackend::gpu_metrics(&accel, 2, 100, 400);
    assert_eq!(metrics.len(), 4);
    let values: Vec<f64> = metrics
        .iter()
        .filter_map(|m| match m.value {
            MetricValue::Utilization(u) => Some(f64::from_bits(u.percent.0)),
            MetricValue::Temperature(t) => Some(f64::from_bits(t.celsius.0)),
            MetricValue::Power(p) => Some(f64::from_bits(p.watts.0)),
            _ => None,
        })
        .collect();
    assert_eq!(values, vec![80.0, 75.0, 25.0]);
    assert_eq!(metrics[1].value, MetricValue::Memory(MemoryStats::new(100, 400)));
}

#[test]
fn ane_metrics_follow_thermal_state() {
    let mut accel = Accelerator::new("Apple Neural Engine", AcceleratorType::AppleNeuralEngine, "metal", "Apple", "ANE");
    for s in MetalBackend::new(true, true).unwrap().create_ane_sensors(accel.id) {
        accel.add_sensor(s).unwrap();
    }
    assert!(MetalBackend::ane_metrics(&accel, false, Some(1)).is_empty());
    let metrics = MetalBackend::ane_metrics(&accel, true, Some(1));
    assert_eq!(metrics.len(), 3);
    match (&metrics[0].value, &metrics[1].value, &metrics[2].value) {
        (MetricValue::Power(p), MetricValue::Temperature(t), MetricValue::Utilization(u)) => {
            assert_eq!(f64::from_bits(p.watts.0), 1.0 * 0.8);
            assert_eq!(f64::from_bits(t.celsius.0), 60.0);
            assert_eq!(f64::from_bits(u.percent.0), 20.0);
        }
        _ => panic!("unexpected metric values"),
    }
    let metrics = MetalBackend::ane_metrics(&accel, true, Some(3));
    match &metrics[0].value {
        MetricValue::Power(p) => assert_eq!(f64::from_bits(p.watts.0), 1.0 * 0.2),
        _ => panic!("not power"),
    }
}

#[test]
fn nvml_metrics_in_order_of_what_was_read() {
    let mut accel = Accelerator::new("GPU 0", AcceleratorType::NvidiaGpu, "nvml", "NVIDIA", "A100");
    for s in create_sensors_for_device(accel.id, false, false, false) {
        accel.add_sensor(s).unwrap();
    }
    let readings = NvmlReadings {
        utilization: Some((42, 250)),
        memory: None,
        temperature_celsius: Some(61),
        power: None,
        graphics_clock_mhz: Some(1410),
        memory_clock_mhz: None,
    };
    let metrics = nvml_metrics(&accel, &readings);
    assert_eq!(metrics.len(), 4);
    assert_eq!(metrics[0].sensor_id, accel.sensor_id_for("gpu_utilization"));
    match (&metrics[0].value, &metrics[1].value, &metrics[2].value) {
        (MetricValue::Utilization(g), MetricValue::Utilization(m), MetricValue::Temperature(t)) => {
            assert_eq!(f64::from_bits(g.percent.0), 42.0);
            assert_eq!(f64::from_bits(m.percent.0), 0.0);
            assert_eq!(f64::from_bits(t.celsius.0), 61.0);
        }
        _ => panic!("unexpected metric values"),
    }
    assert_eq!(metrics[3].value, MetricValue::Frequency(Frequency::from_mhz(1410)));
    assert_eq!(metrics[3].sensor_id, accel.sensor_id_for("graphics_clock"));
}

#[test]
fn tpu_chip_index_and_local_collection() {
    let accels = discover_local_tpus(2);
    assert_eq!(accels.len(), 2);
    assert_eq!(chip_index_from_name(&accels[1].name), 1);
    assert_eq!(chip_index_from_name("TPU v4-8-1"), 1);
    assert_eq!(chip_index_from_name("TPU Chip -2"), -2);
    assert_eq!(chip_index_from_name("TPU v4-8-x"), 0);
    assert_eq!(chip_index_from_name(""), 0);
    let metrics = local_tpu_metrics(&accels[1], Some(2)).unwrap();
    assert_eq!(metrics.len(), 4);
    assert_eq!(metrics[0].value, MetricValue::Memory(MemoryStats::new(16 << 30, 32 << 30)));
    assert!(local_tpu_metrics(&accels[1], None).unwrap().is_empty());
    match local_tpu_metrics(&accels[1], Some(1)) {
        Err(DomainError::BackendError(m)) => assert_eq!(m, "Failed to collect metrics: Invalid chip index: 1 (count: 1)"),
        other => panic!("{other:?}"),
    }
}

#[test]
fn tpu_chip_info_and_readings() {
    let info = get_chip_info(4, 3).unwrap();
    assert_eq!((info.index, info.memory_capacity_gb), (3, 32));
    assert_eq!(f64::from_bits(info.hbm_bandwidth_gbps.0), 1200.0);
    assert_eq!(get_chip_info(4, -1).unwrap_err(), "Invalid chip index: -1 (count: 4)");
    let r = libtpu_chip_readings(1, 0).unwrap();
    assert_eq!(f64::from_bits(r.utilization.percent.0), 65.0);
    let all = vec![r, r];
    assert!(cloud_chip_readings(&all, 1).is_some());
    assert!(cloud_chip_readings(&all, 2).is_none());
    assert!(cloud_chip_readings(&all, -1).is_none());
    let sensors = create_tpu_sensors(AcceleratorId::new(), -3);
    assert_eq!(sensors[0].name, "hbm_memory_-3");
}

#[test]
fn tpu_backend_choice() {
    assert!(matches!(choose_tpu_backend(Some(2), true), Ok(TpuBackendType::Local)));
    assert!(matches!(choose_tpu_backend(Some(0), true), Ok(TpuBackendType::Cloud)));
    match choose_tpu_backend(None, false) {
        Err(DomainError::BackendError(m)) => assert_eq!(m, "No TPU backend available (libtpu or Cloud TPU)"),
        other => panic!("{other:?}"),
    }
}

#[test]
fn vm_pages_make_memory_figures() {
    let vm = tensor_guardian::metal::vm_stats_from_pages(10, 20, 30, 40, 4096);
    assert_eq!(vm.total_memory, 100 * 4096);
    assert_eq!(vm.free_memory, 40 * 4096);
    assert_eq!(vm.used_memory, 60 * 4096);
}

#[test]
fn tracepoint_targets_split_in_two() {
    assert_eq!(tracepoint_target("drm:drm_vblank_event"), Ok(("drm".to_string(), "drm_vblank_event".to_string())));
    match tracepoint_target("a:b:c") {
        Err(DomainError::ConfigurationError(m)) => assert_eq!(m, "Invalid tracepoint format: a:b:c"),
        other => panic!("{other:?}"),
    }
    assert!(tracepoint_target("dma_map_page").is_err());
}

#[test]
fn nvml_errors_and_pci_lookup() {
    assert_eq!(convert_nvml_error(NvmlErrorKind::GpuLost), DomainError::BackendError("NVML: GPU lost".to_string()));
    assert_eq!(
        convert_nvml_error(NvmlErrorKind::Other("Unknown Error".to_string())),
        DomainError::BackendError("NVML: Unknown Error".to_string())
    );
    let accel = Accelerator::new("GPU 0", AcceleratorType::NvidiaGpu, "nvml", "NVIDIA", "A100");
    assert_eq!(nvml_pci_bus_id(&accel), Err(DomainError::BackendError("Missing PCI info".to_string())));
    let accel = accel.with_pci_info(tensor_guardian::aggregates::PciInfo {
        bus_id: "00000000:01:00.0".to_string(),
        domain: 0,
        bus: 1,
        device: 0,
        function: 0,
    });
    assert_eq!(nvml_pci_bus_id(&accel), Ok("00000000:01:00.0".to_string()));
}

#[test]
fn collection_goes_to_the_first_backend_of_the_type() {
    let accel = Accelerator::new("cpu", AcceleratorType::Cpu, "procfs", "Linux", "Generic CPU");
    let id = accel.id;
    let cmd = CollectMetrics { accelerator_id: id, sensor_filter: None };
    match collect_target(&cmd, None, &vec!["procfs"]) {
        Err(AppError::Domain(DomainError::AcceleratorNotFound(m))) => assert_eq!(m, id.to_string()),
        other => panic!("{other:?}"),
    }
    match collect_target(&cmd, Some(accel), &vec!["nvml", "procfs", "procfs"]) {
        Ok((a, i)) => {
            assert_eq!(i, 1);
            assert_eq!(a.id, id);
        }
        other => panic!("{other:?}"),
    }
    let accel = Accelerator::new("cpu", AcceleratorType::Cpu, "procfs", "Linux", "Generic CPU");
    match collect_target(&cmd, Some(accel), &vec!["nvml"]) {
        Err(AppError::BackendNotAvailable(t)) => assert_eq!(t, "procfs"),
        other => panic!("{other:?}"),
    }
    let metrics = vec![metric(1), metric(2)];
    let events = metric_events(id, &metrics);
    assert_eq!(events.len(), 2);
    let cmd = DiscoverAccelerators { backend_filter: Some(vec!["nvml".to_string()]) };
    assert!(cmd.admits("nvml", BackendHealth::Healthy));
    assert!(!cmd.admits("nvml", BackendHealth::Degraded { reason: "slow" }));
    assert!(!cmd.admits("tpu", BackendHealth::Healthy));
}

#[test]
fn nvml_memory_reading_gets_a_fresh_sensor() {
    let mut accel = Accelerator::new("GPU 0", AcceleratorType::NvidiaGpu, "nvml", "NVIDIA", "A100");
    for s in create_sensors_for_device(accel.id, true, false, false) {
        accel.add_sensor(s).unwrap();
    }
    let readings = NvmlReadings {
        utilization: None,
        memory: Some((1 << 30, 4 << 30)),
        temperature_celsius: None,
        power: Some(Power::from_whole_watts(250)),
        graphics_clock_mhz: None,
        memory_clock_mhz: Some(1215),
    };
    let metrics = nvml_metrics(&accel, &readings);
    assert_eq!(metrics.len(), 3);
    assert!(accel.get_sensor(metrics[0].sensor_id).is_none());
    assert_eq!(metrics[0].value, MetricValue::Memory(MemoryStats::new(1 << 30, 4 << 30)));
    assert_eq!(metrics[1].sensor_id, accel.sensor_id_for("power_draw"));
    assert_eq!(metrics[2].sensor_id, accel.sensor_id_for("memory_clock"));
}

#[test]
fn cloud_tpu_chips_collect_under_their_own_sensors() {
    let pod = pod_info_for(true, Some("v4-8".to_string()));
    let accels = discover_cloud_tpus(&pod);
    assert_eq!(accels.len(), 4);
    let reading = |used: u64| TpuChipReadings {
        memory_used: used,
        memory_total: 32 << 30,
        utilization: Utilization::from_whole_percent(50).unwrap(),
        temperature: Temperature::from_whole_celsius(60),
        power: None,
    };
    let all: Vec<TpuChipReadings> = (0..4u64).map(|i| reading(i << 30)).collect();
    for (i, accel) in accels.iter().enumerate() {
        assert_eq!(accel.name, format!("TPU v4-8-{i}"));
        assert_eq!(chip_index_from_name(&accel.name), i as i32);
        assert!(accel.driver_version.is_none() && accel.serial_number.is_none());
        let metrics = tpu_metrics(accel, cloud_chip_readings(&all, chip_index_from_name(&accel.name)));
        assert_eq!(metrics.len(), 3);
        assert_eq!(metrics[0].sensor_id, accel.sensor_id_for(&format!("hbm_memory_{i}")));
        assert_eq!(metrics[1].sensor_id, accel.sensor_id_for(&format!("mxu_utilization_{i}")));
        assert_eq!(metrics[2].sensor_id, accel.sensor_id_for(&format!("temperature_{i}")));
        assert_eq!(metrics[0].value, MetricValue::Memory(MemoryStats::new((i as u64) << 30, 32 << 30)));
    }
    assert_eq!(tpu_backend_name(TpuBackendType::Cloud), "tpu-cloud");
    assert_eq!(tpu_backend_name(TpuBackendType::Local), "tpu-local");
}

#[test]
fn signing_keeps_the_signature_and_reports_failures() {
    let generator = AttestationGenerator::new();
    let provenance = SlsaProvenance::new("build-7");
    match generator.sign(&provenance, Ok(b"MEUCIQ==\n".to_vec())) {
        Ok(sig) => assert_eq!(sig, b"MEUCIQ==".to_vec()),
        Err(e) => panic!("{e:?}"),
    }
    match generator.sign(&provenance, Ok(b" \r\n".to_vec())) {
        Err(AttestationError::SigningError(m)) => assert_eq!(m, "signer returned no signature"),
        other => panic!("{other:?}"),
    }
    match generator.sign(&provenance, Err("no identity token".to_string())) {
        Err(AttestationError::SigningError(m)) => assert_eq!(m, "no identity token"),
        other => panic!("{other:?}"),
    }
}

#[test]
fn recorded_metrics_are_taken_once() {
    let mut accel = Accelerator::new("GPU 0", AcceleratorType::NvidiaGpu, "nvml", "NVIDIA", "RTX 4090");
    let m = metric(7);
    let metric_id = m.id;
    accel.record_metric(m);
    let events = accel.take_events();
    assert_eq!(events.len(), 2);
    assert_eq!(accel.name, "GPU 0");
    assert!(matches!(&events[1], DomainEvent::MetricCollected(e) if e.metric_id == metric_id));
    assert!(accel.take_events().is_empty());
}

#[test]
fn labels_count_each_key_once() {
    let labels = Labels::new().with("source", "tpu").with("chip", "1").with("source", "nvml");
    assert_eq!(labels.inner().len(), 2);
    assert_eq!(labels.get("source").map(|v| v.as_str()), Some("nvml"));
}

#[test]
fn history_chart_of_no_capacity_keeps_the_last_point() {
    let mut chart = HistoryChart::new(0);
    chart.push(1);
    chart.push(2);
    assert_eq!(chart.values(), vec![2]);
}

#[test]
fn configuration_defaults() {
    let sampling = SamplingConfig::default();
    assert_eq!(sampling.interval_ms, 1000);
    assert!(matches!(sampling.retention, RetentionPolicy::LastN(1000)));
    let export = ExportConfig::default();
    let prometheus = export.prometheus.unwrap();
    assert_eq!((prometheus.port, prometheus.host.as_str(), prometheus.path.as_str()), (9101, "0.0.0.0", "/metrics"));
    assert!(export.opentelemetry.is_none() && export.csv.is_none());
    let tui = TuiConfig::default();
    assert_eq!((tui.color_scheme.as_str(), tui.show_history, tui.history_size), ("default", true, 20));
    let logging = LoggingConfig::default();
    assert_eq!(logging.level, "info");
    assert!(logging.file.is_none());
}

#[test]
fn metal_collects_by_accelerator_type() {
    assert_eq!(MetalBackend::collection_source(&AcceleratorType::AppleGpu), MetalSource::SystemFigures);
    assert_eq!(MetalBackend::collection_source(&AcceleratorType::AppleNeuralEngine), MetalSource::NeuralEngine);
    assert_eq!(MetalBackend::collection_source(&AcceleratorType::NvidiaGpu), MetalSource::Nothing);
}

fn listing_sample() -> Vec<Accelerator> {
    vec![
        Accelerator::new("GPU 0", AcceleratorType::NvidiaGpu, "nvml", "NVIDIA", "RTX 4090"),
        Accelerator::new(
            "Apple Neural Engine (Gen 3, M2)",
            AcceleratorType::AppleNeuralEngine,
            "metal",
            "Apple",
            "Apple Neural Engine (Gen 3, M2)",
        ),
        Accelerator::new(
            "board",
            AcceleratorType::Custom {
                name: "q\"t\tn\nb\\z\u{1}d\u{7f}\u{1b}é".to_string(),
                vendor: "Acme\r".to_string(),
            },
            "custom",
            "Acme",
            "X1",
        ),
    ]
}

#[test]
fn discovery_table_matches_the_command_layout() {
    let accels = listing_sample();
    let mut expected = format!("\n{:<20} {:<15} {:<20} {:<30}\n", "Name", "Type", "Vendor", "Model");
    expected.push_str(&format!("{}\n", "-".repeat(85)));
    for a in &accels {
        expected.push_str(&format!("{:<20} {:<15?} {:<20} {:<30}\n", a.name, a.accelerator_type, a.vendor, a.model));
    }
    assert_eq!(discovery_listing(&accels, ListingFormat::Table), expected);
}

#[test]
fn discovery_json_matches_the_command_layout() {
    let accels = listing_sample();
    let mut expected = String::from("{\n  \"accelerators\": [\n");
    for (i, a) in accels.iter().enumerate() {
        let comma = if i < accels.len() - 1 { "," } else { "" };
        expected.push_str(&format!(
            "    {{\"id\": \"{}\", \"name\": \"{}\", \"type\": {:?}, \"vendor\": \"{}\"}}{}\n",
            a.id.to_string(),
            a.name,
            a.accelerator_type,
            a.vendor,
            comma
        ));
    }
    expected.push_str("  ]\n}\n");
    assert_eq!(discovery_listing(&accels, ListingFormat::Json), expected);
    assert_eq!(discovery_listing(&Vec::new(), ListingFormat::Json), "{\n  \"accelerators\": [\n  ]\n}\n");
}

#[test]
fn discovery_yaml_matches_the_command_layout() {
    let accels = listing_sample();
    let mut expected = String::from("accelerators:\n");
    for a in &accels {
        expected.push_str(&format!("  - id: {}\n", a.id.to_string()));
        expected.push_str(&format!("    name: {}\n", a.name));
        expected.push_str(&format!("    type: {:?}\n", a.accelerator_type));
        expected.push_str(&format!("    vendor: {}\n", a.vendor));
        expected.push_str(&format!("    model: {}\n", a.model));
    }
    assert_eq!(discovery_listing(&accels, ListingFormat::Yaml), expected);
    assert!(discovery_listing(&accels, ListingFormat::Yaml).contains("    type: NvidiaGpu\n"));
}

#[test]
fn times_taken_as_arguments_are_recorded() {
    let mut accel = Accelerator::new("GPU 0", AcceleratorType::NvidiaGpu, "nvml", "NVIDIA", "RTX 4090");
    let t = Timestamp::from_unix_nanos(1_700_000_000_000_000_000);
    assert_eq!(t.nanos, 1_700_000_000_000_000_000);
    assert_eq!(Timestamp::from_unix_nanos(1u128 << 64).nanos, 0);
    accel.set_last_seen(t);
    assert_eq!(accel.last_seen, t);
    let later = Timestamp::from_nanos(t.nanos + 5);
    accel.record_metric_at(metric(1), later);
    assert_eq!(accel.last_seen, later);
    accel.mark_unhealthy();
    accel.mark_healthy_at(t);
    assert!(accel.enabled);
    assert_eq!(accel.last_seen, t);
}

#[test]
fn discovery_run_visits_selected_backends_and_counts_saved_ones() {
    let cmd = DiscoverAccelerators { backend_filter: Some(vec!["metal".to_string(), "procfs".to_string()]) };
    let types = vec!["nvml", "metal", "tpu-local", "procfs"];
    let mut run = DiscoveryRun::new();
    assert_eq!(run.step(&cmd, &types), DiscoveryStep::Consult(1));
    let (a, b) = (AcceleratorId::new(), AcceleratorId::new());
    run.saved(a, true);
    run.saved(b, false);
    assert_eq!(run.step(&cmd, &types), DiscoveryStep::Consult(3));
    assert_eq!(run.step(&cmd, &types), DiscoveryStep::Finish);
    assert_eq!(run.discovered, vec![a]);
    let all = DiscoverAccelerators { backend_filter: None };
    let mut run = DiscoveryRun::new();
    assert_eq!(run.step(&all, &types), DiscoveryStep::Consult(0));
    assert_eq!(run.next, 1);
}

#[test]
fn metal_is_available_only_on_macs_with_apple_silicon() {
    assert!(MetalBackend::is_available(true, true));
    assert!(!MetalBackend::is_available(false, true));
    assert!(!MetalBackend::is_available(true, false));
}

#[test]
fn default_configuration_names_nvml() {
    let backends = tensor_guardian::config::default_backends();
    assert_eq!(backends.len(), 1);
    assert_eq!(backends[0].name, "nvml");
    assert!(backends[0].enabled);
}

#[test]
fn provenance_start_is_written_in_rfc3339() {
    let p = SlsaProvenance::started_at("build-1", Timestamp::from_nanos(0));
    assert_eq!(p.predicate.metadata.build_started_on, "1970-01-01T00:00:00+00:00");
    let p = SlsaProvenance::started_at("build-2", Timestamp::from_nanos(1_500_000_000));
    assert_eq!(p.predicate.metadata.build_started_on, "1970-01-01T00:00:01.500+00:00");
    assert_eq!(p.predicate.metadata.build_invocation_id, "build-2");
    let now = SlsaProvenance::new("build-3");
    assert!(now.predicate.metadata.build_started_on.ends_with("+00:00"));
}
