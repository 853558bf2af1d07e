use std::sync::Arc;

use ion_channel::compositor::capture::backends::{
    CpuCapture, CpuCaptureConfig, DmabufCapture, DmabufCaptureConfig, DrmFormat, PipeWireConfig,
    ShmCapture, ShmCaptureBuilder, ShmCaptureConfig,
};
use ion_channel::compositor::capture::caps::{
    CaptureCapabilities, CaptureError, ScreenCapture, ScreenCaptureExt,
};
use ion_channel::compositor::capture::frame::{
    CaptureFrame, FrameFormat, FrameMetadata, FrameMetadataBuilder,
};
use ion_channel::compositor::capture::patterns::{cpu_fallback_frame, frame_hash, shm_test_pattern};
use ion_channel::compositor::capture::tier::{
    gpu_vendor_from_probes, vm_detected, CaptureTier, EnvironmentInfo, TierSelector,
};
use ion_channel::time::{Duration, Instant, MonotonicClock};

fn assert_send_sync<T: Send + Sync>() {}

fn env(is_vm: bool, has_drm: bool, wayland: bool, runtime: bool, vendor: Option<&str>) -> EnvironmentInfo {
    EnvironmentInfo {
        is_vm,
        has_drm,
        wayland_display: if wayland { Some("wayland-0".to_string()) } else { None },
        has_runtime_dir: runtime,
        gpu_vendor: vendor.map(|v| v.to_string()),
    }
}

#[test]
fn frame_format_bytes() {
    assert_eq!(FrameFormat::Bgra8888.bytes_per_pixel(), 4);
    assert_eq!(FrameFormat::Rgba8888.bytes_per_pixel(), 4);
    assert_eq!(FrameFormat::Xrgb8888.bytes_per_pixel(), 4);
    assert_eq!(FrameFormat::Xbgr8888.bytes_per_pixel(), 4);
    assert_eq!(FrameFormat::Rgb888.bytes_per_pixel(), 3);
    assert_eq!(FrameFormat::Bgr888.bytes_per_pixel(), 3);
}

#[test]
fn frame_format_has_alpha() {
    assert!(FrameFormat::Bgra8888.has_alpha());
    assert!(FrameFormat::Rgba8888.has_alpha());
    assert!(!FrameFormat::Xrgb8888.has_alpha());
    assert!(!FrameFormat::Xbgr8888.has_alpha());
    assert!(!FrameFormat::Rgb888.has_alpha());
    assert!(!FrameFormat::Bgr888.has_alpha());
}

#[test]
fn frame_format_fourcc() {
    assert_eq!(FrameFormat::Bgra8888.fourcc(), 0x34324742);
    assert_eq!(FrameFormat::Rgba8888.fourcc(), 0x34324152);
}

#[test]
fn frame_format_display() {
    assert_eq!(FrameFormat::Bgra8888.name(), "BGRA8888");
    assert_eq!(FrameFormat::Rgba8888.name(), "RGBA8888");
    assert_eq!(FrameFormat::Xrgb8888.name(), "XRGB8888");
    assert_eq!(FrameFormat::Xbgr8888.name(), "XBGR8888");
    assert_eq!(FrameFormat::Rgb888.name(), "RGB888");
    assert_eq!(FrameFormat::Bgr888.name(), "BGR888");
}

#[test]
fn frame_metadata_builder() {
    let start = Instant::from_nanos(1_000_000);
    let metadata = FrameMetadataBuilder::new()
        .sequence(42)
        .dimensions(1920, 1080)
        .format(FrameFormat::Bgra8888)
        .capture_start(start)
        .build_at(Instant::from_nanos(3_000_000));
    assert_eq!(metadata.sequence, 42);
    assert_eq!(metadata.width, 1920);
    assert_eq!(metadata.height, 1080);
    assert_eq!(metadata.stride, 1920 * 4);
    assert!(metadata.capture_latency() >= Duration::from_millis(1));
    assert_eq!(metadata.capture_latency(), Duration::from_millis(2));
}

#[test]
fn frame_metadata_builder_defaults() {
    let metadata = FrameMetadataBuilder::new().dimensions(100, 100).build(&mut MonotonicClock::start());
    assert_eq!(metadata.sequence, 0);
    assert_eq!(metadata.format, FrameFormat::Bgra8888);
    assert_eq!(metadata.stride, 100 * 4);
    assert_eq!(metadata.output_index, 0);
    assert!(metadata.pipewire_node.is_none());
}

#[test]
fn frame_metadata_builder_all_fields() {
    let metadata = FrameMetadataBuilder::new()
        .sequence(100)
        .dimensions(800, 600)
        .stride(3200)
        .format(FrameFormat::Rgba8888)
        .pipewire_node(42)
        .output_index(1)
        .build(&mut MonotonicClock::start());
    assert_eq!(metadata.sequence, 100);
    assert_eq!(metadata.width, 800);
    assert_eq!(metadata.height, 600);
    assert_eq!(metadata.stride, 3200);
    assert_eq!(metadata.format, FrameFormat::Rgba8888);
    assert_eq!(metadata.pipewire_node, Some(42));
    assert_eq!(metadata.output_index, 1);
}

#[test]
fn frame_metadata_frame_size() {
    let metadata = FrameMetadataBuilder::new().dimensions(1920, 1080).stride(7680).build(&mut MonotonicClock::start());
    assert_eq!(metadata.frame_size(), 7680 * 1080);
}

#[test]
fn frame_metadata_age() {
    let metadata = FrameMetadataBuilder::new()
        .dimensions(100, 100)
        .build_at(Instant::from_nanos(10_000_000));
    assert!(metadata.age_at(Instant::from_nanos(15_000_000)) >= Duration::from_millis(5));
    assert_eq!(metadata.age_at(Instant::from_nanos(5_000_000)), Duration::from_nanos(0));
}

#[test]
fn capture_frame_new() {
    let metadata = FrameMetadataBuilder::new().dimensions(10, 10).build(&mut MonotonicClock::start());
    let data = vec![0u8; 400];
    let frame = CaptureFrame::new(metadata, data);
    assert_eq!(frame.width(), 10);
    assert_eq!(frame.height(), 10);
    assert_eq!(frame.data().len(), 400);
}

#[test]
fn capture_frame_with_shared_data() {
    let metadata = FrameMetadataBuilder::new().dimensions(10, 10).build(&mut MonotonicClock::start());
    let shared = Arc::new(vec![0u8; 400]);
    let frame = CaptureFrame::with_shared_data(metadata, shared.clone());
    assert!(Arc::ptr_eq(&frame.shared_data(), &shared));
}

#[test]
fn capture_frame_format() {
    let metadata = FrameMetadataBuilder::new().dimensions(10, 10).format(FrameFormat::Rgba8888).build(&mut MonotonicClock::start());
    let frame = CaptureFrame::new(metadata, vec![0u8; 400]);
    assert_eq!(frame.format(), FrameFormat::Rgba8888);
}

#[test]
fn capture_frame_is_fresh() {
    let metadata = FrameMetadataBuilder::new()
        .dimensions(10, 10)
        .build_at(Instant::from_nanos(1_000_000_000));
    let frame = CaptureFrame::new(metadata, vec![0u8; 400]);
    assert!(frame.is_fresh_at(Duration::from_secs(1), Instant::from_nanos(1_000_000_000)));
    assert!(frame.is_fresh_at(Duration::from_secs(1), Instant::from_nanos(1_010_000_000)));
    assert!(!frame.is_fresh_at(Duration::from_millis(5), Instant::from_nanos(1_010_000_000)));
}

#[test]
fn frame_conversion() {
    let metadata = FrameMetadataBuilder::new().dimensions(2, 2).format(FrameFormat::Bgra8888).build(&mut MonotonicClock::start());
    let data = vec![0, 1, 2, 255, 10, 11, 12, 255, 20, 21, 22, 255, 30, 31, 32, 255];
    let frame = CaptureFrame::new(metadata, data);
    let converted = frame.convert_to(FrameFormat::Rgba8888).unwrap();
    assert_eq!(converted.data()[0], 2);
    assert_eq!(converted.data()[2], 0);
    assert_eq!(converted.format(), FrameFormat::Rgba8888);
}

#[test]
fn frame_conversion_same_format() {
    let metadata = FrameMetadataBuilder::new().dimensions(2, 2).format(FrameFormat::Bgra8888).build(&mut MonotonicClock::start());
    let frame = CaptureFrame::new(metadata, vec![0u8; 16]);
    let converted = frame.convert_to(FrameFormat::Bgra8888);
    assert!(converted.is_some());
}

#[test]
fn frame_conversion_unsupported() {
    let metadata = FrameMetadataBuilder::new().dimensions(2, 2).format(FrameFormat::Bgra8888).build(&mut MonotonicClock::start());
    let frame = CaptureFrame::new(metadata, vec![0u8; 16]);
    let converted = frame.convert_to(FrameFormat::Rgb888);
    assert!(converted.is_none());
}

#[test]
fn frame_conversion_rgba_to_bgra() {
    let metadata = FrameMetadataBuilder::new().dimensions(1, 1).format(FrameFormat::Rgba8888).build(&mut MonotonicClock::start());
    let frame = CaptureFrame::new(metadata, vec![255, 128, 64, 255]);
    let converted = frame.convert_to(FrameFormat::Bgra8888).unwrap();
    assert_eq!(converted.data()[0], 64);
    assert_eq!(converted.data()[2], 255);
}

#[test]
fn frame_conversion_twice_restores_pixels() {
    let metadata = FrameMetadataBuilder::new().dimensions(2, 1).format(FrameFormat::Bgra8888).build(&mut MonotonicClock::start());
    let original = vec![1, 2, 3, 4, 5, 6, 7, 8];
    let frame = CaptureFrame::new(metadata, original.clone());
    let there = frame.convert_to(FrameFormat::Rgba8888).unwrap();
    let back = there.convert_to(FrameFormat::Bgra8888).unwrap();
    assert_eq!(back.data(), &original[..]);
}

#[test]
fn frame_shared_data() {
    let metadata = FrameMetadataBuilder::new().dimensions(10, 10).build(&mut MonotonicClock::start());
    let frame = CaptureFrame::new(metadata, vec![0u8; 400]);
    let shared1 = frame.shared_data();
    let shared2 = frame.shared_data();
    assert!(Arc::ptr_eq(&shared1, &shared2));
}

#[test]
fn frame_clone() {
    let metadata = FrameMetadataBuilder::new().dimensions(10, 10).sequence(42).build(&mut MonotonicClock::start());
    let frame = CaptureFrame::new(metadata, vec![1u8; 400]);
    let cloned = frame.clone();
    assert_eq!(frame.width(), cloned.width());
    assert_eq!(frame.metadata.sequence, cloned.metadata.sequence);
    assert!(Arc::ptr_eq(&frame.shared_data(), &cloned.shared_data()));
}

#[test]
fn frame_share_keeps_data() {
    let metadata = FrameMetadataBuilder::new().dimensions(2, 1).sequence(7).build(&mut MonotonicClock::start());
    let frame = CaptureFrame::new(metadata, vec![9u8; 8]);
    let shared = frame.share();
    assert_eq!(shared.metadata.sequence, 7);
    assert!(Arc::ptr_eq(&frame.shared_data(), &shared.shared_data()));
}

#[test]
fn frame_format_is_send_sync() {
    assert_send_sync::<FrameFormat>();
    assert_send_sync::<FrameMetadata>();
    assert_send_sync::<CaptureFrame>();
}

#[test]
fn capabilities_ordering() {
    let dmabuf = CaptureCapabilities::dmabuf(vec![]);
    let shm = CaptureCapabilities::shm(vec![]);
    let cpu = CaptureCapabilities::cpu();
    let none = CaptureCapabilities::none();
    assert!(dmabuf.tier > shm.tier);
    assert!(shm.tier > cpu.tier);
    assert!(cpu.tier > none.tier);
}

#[test]
fn capabilities_descriptions() {
    let caps = CaptureCapabilities::shm(vec![FrameFormat::Bgra8888]);
    assert!(caps.description.contains("VM"));
    assert_eq!(caps.tier, CaptureTier::Shm);
}

#[test]
fn tier_ordering() {
    assert!(CaptureTier::Dmabuf > CaptureTier::Shm);
    assert!(CaptureTier::Shm > CaptureTier::Cpu);
    assert!(CaptureTier::Cpu > CaptureTier::Unavailable);
}

#[test]
fn tier_has_capture() {
    assert!(CaptureTier::Dmabuf.has_capture());
    assert!(CaptureTier::Shm.has_capture());
    assert!(CaptureTier::Cpu.has_capture());
    assert!(!CaptureTier::Unavailable.has_capture());
}

#[test]
fn tier_name() {
    assert_eq!(CaptureTier::Unavailable.name(), "None (input-only)");
    assert_eq!(CaptureTier::Cpu.name(), "CPU Framebuffer");
    assert_eq!(CaptureTier::Shm.name(), "Shared Memory");
    assert_eq!(CaptureTier::Dmabuf.name(), "DMA-BUF (GPU)");
}

#[test]
fn tier_estimated_latency() {
    assert_eq!(CaptureTier::Dmabuf.estimated_latency_ms(), 2);
    assert_eq!(CaptureTier::Shm.estimated_latency_ms(), 10);
    assert_eq!(CaptureTier::Cpu.estimated_latency_ms(), 30);
    assert_eq!(CaptureTier::Unavailable.estimated_latency_ms(), 0);
}

#[test]
fn tier_display() {
    assert!(CaptureTier::Dmabuf.name().contains("GPU"));
    assert!(CaptureTier::Shm.name().contains("Memory"));
    assert!(CaptureTier::Cpu.name().contains("CPU"));
    assert!(CaptureTier::Unavailable.name().contains("input-only"));
}

#[test]
fn tier_partial_ord() {
    assert!(CaptureTier::Dmabuf.partial_cmp(&CaptureTier::Shm) == Some(std::cmp::Ordering::Greater));
    assert!(CaptureTier::Unavailable.partial_cmp(&CaptureTier::Cpu) == Some(std::cmp::Ordering::Less));
    assert!(CaptureTier::Shm.partial_cmp(&CaptureTier::Shm) == Some(std::cmp::Ordering::Equal));
}

#[test]
fn tier_repr_values() {
    assert_eq!(CaptureTier::Unavailable as u8, 0);
    assert_eq!(CaptureTier::Cpu as u8, 1);
    assert_eq!(CaptureTier::Shm as u8, 2);
    assert_eq!(CaptureTier::Dmabuf as u8, 3);
    assert_eq!(CaptureTier::Dmabuf.rank(), 3);
    assert!(CaptureTier::Shm.better_than(CaptureTier::Cpu));
}

#[test]
fn environment_dmabuf_likely_works_vm_with_virtio() {
    assert!(!env(true, true, true, true, Some("Virtio")).dmabuf_likely_works());
}

#[test]
fn environment_dmabuf_likely_works_vm_with_qemu() {
    assert!(!env(true, true, true, true, Some("QEMU")).dmabuf_likely_works());
}

#[test]
fn environment_dmabuf_likely_works_physical() {
    assert!(env(false, true, true, true, Some("AMD")).dmabuf_likely_works());
}

#[test]
fn environment_dmabuf_likely_works_no_drm() {
    assert!(!env(false, false, true, true, None).dmabuf_likely_works());
}

#[test]
fn tier_selector_with_env() {
    let selector = TierSelector::with_env(env(false, true, true, true, Some("Intel")));
    assert!(selector.env_info().has_drm);
    assert_eq!(selector.select_best(), CaptureTier::Dmabuf);
}

#[test]
fn tier_selector_no_wayland() {
    let selector = TierSelector::with_env(env(false, true, false, true, None));
    assert_eq!(selector.select_best(), CaptureTier::Unavailable);
}

#[test]
fn tier_selector_select_tier() {
    let selector = TierSelector::with_env(env(false, true, true, true, Some("AMD")));
    assert!(selector.select_tier(CaptureTier::Unavailable).is_some());
}

#[test]
fn tier_selector_select_tier_shm() {
    let selector = TierSelector::with_env(env(false, false, true, true, None));
    assert!(selector.select_tier(CaptureTier::Shm).is_some());
    assert_eq!(selector.select_best(), CaptureTier::Shm);
}

#[test]
fn tier_selector_select_tier_cpu() {
    let selector = TierSelector::with_env(env(false, false, true, false, None));
    assert!(selector.select_tier(CaptureTier::Cpu).is_some());
    assert!(selector.select_tier(CaptureTier::Shm).is_none());
    assert_eq!(selector.select_best(), CaptureTier::Cpu);
}

#[test]
fn tier_selector_default_impl() {
    let selector = TierSelector::with_env(env(false, false, false, false, None));
    assert!(!selector.env_info().wayland_display.is_none() || selector.env_info().wayland_display.is_none());
}

#[test]
fn tier_is_send_sync() {
    assert_send_sync::<CaptureTier>();
    assert_send_sync::<EnvironmentInfo>();
    assert_send_sync::<TierSelector>();
}

#[test]
fn vm_detection_from_probes() {
    let dmi = vec!["Standard PC (Q35 + ICH9, 2009)\n".to_string(), "QEMU\n".to_string()];
    assert!(vm_detected(&dmi, None));
    let physical = vec!["ThinkPad X1 Carbon\n".to_string(), "LENOVO\n".to_string()];
    assert!(!vm_detected(&physical, Some("flags: fpu vme de pse")));
    assert!(vm_detected(&physical, Some("flags: fpu hypervisor")));
    assert!(vm_detected(&vec!["VMware Virtual Platform".to_string()], None));
}

#[test]
fn gpu_vendor_detection_from_probes() {
    assert_eq!(gpu_vendor_from_probes(&vec!["0x10de\n".to_string()]), Some("NVIDIA".to_string()));
    assert_eq!(
        gpu_vendor_from_probes(&vec!["0xffff\n".to_string(), " 0x1af4 ".to_string()]),
        Some("Virtio".to_string())
    );
    assert_eq!(gpu_vendor_from_probes(&vec!["0xffff".to_string()]), None);
    assert_eq!(gpu_vendor_from_probes(&vec![]), None);
}

#[test]
fn dmabuf_capabilities() {
    let capture = DmabufCapture::with_defaults(100, 100);
    let caps = capture.capabilities();
    assert_eq!(caps.tier, CaptureTier::Dmabuf);
    assert!(caps.hardware_encoding);
    assert!(caps.estimated_cpu_overhead < 10);
}

#[test]
fn dmabuf_config_default() {
    let config = DmabufCaptureConfig::default();
    assert_eq!(config.target_fps, 60);
    assert!(!config.preferred_formats.is_empty());
}

#[test]
fn dmabuf_custom_config() {
    let config = DmabufCaptureConfig {
        preferred_formats: vec![DrmFormat::new(FrameFormat::Rgba8888.fourcc(), DrmFormat::MODIFIER_LINEAR)],
        target_fps: 30,
    };
    assert_eq!(config.target_fps, 30);
}

#[test]
fn dmabuf_capture_multiple_frames() {
    let mut capture = DmabufCapture::with_defaults(100, 100);
    let frame1 = capture.capture_frame_at(Instant::from_nanos(1));
    let frame2 = capture.capture_frame_at(Instant::from_nanos(2));
    assert_eq!(frame1.metadata.sequence + 1, frame2.metadata.sequence);
    assert_eq!(frame1.width(), 100);
    assert_eq!(frame1.data().len(), 100 * 4 * 100);
}

#[test]
fn dmabuf_start_stream_not_available() {
    let capture = DmabufCapture::with_defaults(100, 100);
    assert!(capture.start_stream(30).is_err());
}

#[test]
fn dmabuf_stop_stream() {
    let capture = DmabufCapture::with_defaults(100, 100);
    assert!(capture.stop_stream().is_ok());
}

#[test]
fn dmabuf_is_capturing() {
    let capture = DmabufCapture::with_defaults(100, 100);
    assert!(!capture.is_capturing());
}

#[test]
fn dmabuf_tier() {
    let capture = DmabufCapture::with_defaults(100, 100);
    assert_eq!(capture.tier(), CaptureTier::Dmabuf);
}

#[test]
fn dmabuf_is_optimal() {
    let capture = DmabufCapture::with_defaults(100, 100);
    assert!(capture.is_optimal());
}

#[test]
fn dmabuf_is_available() {
    let capture = DmabufCapture::with_defaults(100, 100);
    assert!(capture.is_available());
}

#[test]
fn dmabuf_is_send_sync() {
    assert_send_sync::<DmabufCapture>();
    assert_send_sync::<DmabufCaptureConfig>();
    assert_send_sync::<DrmFormat>();
}

#[test]
fn drm_format_construction() {
    let format = DrmFormat::new(0x3432_4742, DrmFormat::MODIFIER_LINEAR);
    assert_eq!(format.fourcc, 0x3432_4742);
    assert_eq!(format.modifier, 0);
}

#[test]
fn drm_format_modifiers() {
    assert_eq!(DrmFormat::MODIFIER_LINEAR, 0);
    assert_eq!(DrmFormat::MODIFIER_INVALID, 0x00ff_ffff_ffff_ffff);
}

#[test]
fn drm_format_clone() {
    let format = DrmFormat::new(0x1234_5678, 0);
    let cloned = format.clone();
    assert_eq!(format, cloned);
}

#[test]
fn drm_format_eq() {
    let f1 = DrmFormat::new(0x1234_5678, 0);
    let f2 = DrmFormat::new(0x1234_5678, 0);
    let f3 = DrmFormat::new(0x1234_5678, 1);
    assert_eq!(f1, f2);
    assert_ne!(f1, f3);
}

#[test]
fn dmabuf_with_custom_formats() {
    let formats = vec![
        DrmFormat::new(FrameFormat::Rgba8888.fourcc(), DrmFormat::MODIFIER_LINEAR),
        DrmFormat::new(FrameFormat::Bgra8888.fourcc(), DrmFormat::MODIFIER_LINEAR),
    ];
    let config = DmabufCaptureConfig::default();
    let capture = DmabufCapture::new(800, 600, formats, config);
    assert_eq!(capture.capabilities().tier, CaptureTier::Dmabuf);
}

#[test]
fn test_pipewire_config_default() {
    let config = PipeWireConfig::default();
    assert_eq!(config.target_fps, 30);
    assert!(config.capture_cursor);
    assert_eq!(config.preferred_format, FrameFormat::Bgra8888);
}

#[test]
fn shm_capture_capabilities() {
    let capture = ShmCapture::with_defaults(100, 100);
    let caps = capture.capabilities();
    assert_eq!(caps.tier, CaptureTier::Shm);
    assert!(caps.max_fps >= 30);
    assert!(!caps.formats.is_empty());
}

#[test]
fn shm_config_default() {
    let config = ShmCaptureConfig::default();
    assert_eq!(config.target_fps, 30);
    assert_eq!(config.buffer_count, 2);
    assert_eq!(config.preferred_format, FrameFormat::Bgra8888);
    assert_eq!(config.timeout, Duration::from_millis(100));
}

#[test]
fn shm_config_clone() {
    let config = ShmCaptureConfig::default();
    let cloned = config.clone();
    assert_eq!(config.target_fps, cloned.target_fps);
}

#[test]
fn shm_start_stream() {
    let capture = ShmCapture::with_defaults(100, 100);
    assert_eq!(capture.start_stream(30).unwrap(), 30);
    assert_eq!(capture.start_stream(0).unwrap(), 1);
    assert_eq!(capture.start_stream(500).unwrap(), 60);
}

#[test]
fn shm_stop_stream() {
    let capture = ShmCapture::with_defaults(100, 100);
    assert!(capture.stop_stream().is_ok());
}

#[test]
fn shm_is_capturing() {
    let capture = ShmCapture::with_defaults(100, 100);
    assert!(!capture.is_capturing());
}

#[test]
fn shm_tier() {
    let capture = ShmCapture::with_defaults(100, 100);
    assert_eq!(capture.tier(), CaptureTier::Shm);
}

#[test]
fn shm_is_optimal() {
    let capture = ShmCapture::with_defaults(100, 100);
    assert!(!capture.is_optimal());
}

#[test]
fn shm_is_available() {
    let capture = ShmCapture::with_defaults(100, 100);
    assert!(capture.is_available());
}

#[test]
fn shm_builder_try_build_ok() {
    let result = ShmCaptureBuilder::new().dimensions(100, 100).try_build();
    assert!(result.is_ok());
}

#[test]
fn shm_builder_try_build_no_width() {
    let result = ShmCaptureBuilder::new().try_build();
    assert!(result.is_err());
}

#[test]
fn shm_builder_try_build_no_height() {
    let mut builder = ShmCaptureBuilder::new();
    builder.width = Some(100);
    let result = builder.try_build();
    assert!(result.is_err());
    assert!(matches!(result, Err(CaptureError::Internal(m)) if m == "height not set"));
}

#[test]
fn shm_builder_timeout() {
    let capture = ShmCaptureBuilder::new().dimensions(100, 100).timeout(Duration::from_secs(5)).build();
    assert_eq!(capture.config().timeout, Duration::from_secs(5));
}

#[test]
fn shm_builder_default() {
    let builder = ShmCaptureBuilder::default();
    assert!(builder.width.is_none());
    assert!(builder.height.is_none());
}

#[test]
fn shm_capture_is_send_sync() {
    assert_send_sync::<ShmCapture>();
    assert_send_sync::<ShmCaptureConfig>();
    assert_send_sync::<ShmCaptureBuilder>();
}

#[test]
fn shm_config_custom() {
    let config = ShmCaptureConfig {
        target_fps: 60,
        buffer_count: 4,
        preferred_format: FrameFormat::Rgba8888,
        timeout: Duration::from_millis(50),
    };
    assert_eq!(config.target_fps, 60);
    assert_eq!(config.buffer_count, 4);
}

#[test]
fn shm_capture_sequential_frames() {
    let mut capture = ShmCapture::with_defaults(640, 480);
    let t0 = Instant::from_nanos(1_000_000);
    let frame1 = capture.capture_frame_at(t0, Instant::from_nanos(6_000_000)).unwrap();
    let frame2 = capture.capture_frame_at(t0, Instant::from_nanos(6_000_000)).unwrap();
    assert!(frame2.metadata.sequence > frame1.metadata.sequence);
    assert_eq!(frame1.width(), 640);
    assert_eq!(frame1.format(), FrameFormat::Bgra8888);
    assert_eq!(frame1.data().len(), 640 * 480 * 4);
}

#[test]
fn shm_capture_timeout() {
    let mut capture = ShmCapture::with_defaults(64, 64);
    let result = capture.capture_frame_at(Instant::from_nanos(0), Instant::from_nanos(200_000_000));
    assert!(matches!(result, Err(CaptureError::Timeout(d)) if d == Duration::from_millis(100)));
    let next = capture.capture_frame_at(Instant::from_nanos(0), Instant::from_nanos(1)).unwrap();
    assert_eq!(next.metadata.sequence, 1);
}

#[test]
fn shm_capture_resize() {
    let mut capture = ShmCapture::with_defaults(800, 600);
    let f1 = capture.capture_frame_at(Instant::from_nanos(0), Instant::from_nanos(0)).unwrap();
    assert_eq!(f1.width(), 800);
    capture.resize(1920, 1080);
    let f2 = capture.capture_frame_at(Instant::from_nanos(0), Instant::from_nanos(0)).unwrap();
    assert_eq!(f2.width(), 1920);
    assert_eq!(f2.height(), 1080);
}

#[test]
fn shm_frame_format_preserved() {
    let config = ShmCaptureConfig { preferred_format: FrameFormat::Rgba8888, ..ShmCaptureConfig::default() };
    let mut capture = ShmCapture::new(100, 100, config);
    let frame = capture.capture_frame_at(Instant::from_nanos(0), Instant::from_nanos(0)).unwrap();
    assert_eq!(frame.format(), FrameFormat::Rgba8888);
}

#[test]
fn shm_generate_test_pattern_bgra() {
    let data = shm_test_pattern(64, 64, FrameFormat::Bgra8888, 0);
    assert_eq!(data.len(), 64 * 64 * 4);
    // The bar starts at x = 0: white.
    assert_eq!(&data[0..4], &[255, 255, 255, 255]);
    // Pixel (32, 1): gradient, red 32*255/64 = 127, green 1*255/64 = 3, blue 128, in BGRA order.
    let off = (64 + 32) * 4;
    assert_eq!(&data[off..off + 4], &[128, 3, 127, 255]);
}

#[test]
fn shm_generate_test_pattern_rgba() {
    let data = shm_test_pattern(64, 64, FrameFormat::Rgba8888, 0);
    assert_eq!(data.len(), 64 * 64 * 4);
    let off = (64 + 32) * 4;
    assert_eq!(&data[off..off + 4], &[127, 3, 128, 255]);
}

#[test]
fn shm_generate_test_pattern_other_format() {
    let data = shm_test_pattern(64, 64, FrameFormat::Xrgb8888, 0);
    assert_eq!(data.len(), 64 * 64 * 4);
}

#[test]
fn shm_test_pattern_bar_moves() {
    // Frame 3: the bar stands at x = 30; x = 49 is inside it, x = 50 outside.
    let data = shm_test_pattern(64, 1, FrameFormat::Bgra8888, 3);
    assert_eq!(&data[49 * 4..49 * 4 + 4], &[255, 255, 255, 255]);
    assert_eq!(&data[50 * 4..50 * 4 + 4], &[128, 0, 199, 255]);
}

#[test]
fn cpu_capabilities() {
    let capture = CpuCapture::with_defaults(100, 100);
    let caps = capture.capabilities();
    assert_eq!(caps.tier, CaptureTier::Cpu);
    assert!(!caps.hardware_encoding);
    assert!(caps.estimated_cpu_overhead >= 20);
    assert!(caps.max_fps <= 30);
}

#[test]
fn cpu_capture_basic() {
    let mut capture = CpuCapture::with_defaults(800, 600);
    let frame = capture.capture_frame_at(Instant::from_nanos(0), Instant::from_nanos(10_000_000));
    assert_eq!(frame.width(), 800);
    assert_eq!(frame.height(), 600);
    assert_eq!(frame.format(), FrameFormat::Bgra8888);
    assert_eq!(frame.data().len(), 800 * 600 * 4);
    assert_eq!(frame.metadata.stride, 800 * 4);
}

#[test]
fn cpu_frame_differencing_hash() {
    let data1 = vec![0u8; 4096];
    let data2 = vec![1u8; 4096];
    assert_ne!(frame_hash(&data1), frame_hash(&data2));
}

#[test]
fn cpu_frame_hash_values() {
    assert_eq!(frame_hash(&[]), 0xcbf29ce484222325);
    let one = (0xcbf29ce484222325u64 ^ 7).wrapping_mul(0x100000001b3);
    assert_eq!(frame_hash(&[7]), one);
    // Only every 1024th byte is sampled.
    let mut a = vec![0u8; 2048];
    let b = a.clone();
    a[5] = 9;
    assert_eq!(frame_hash(&a), frame_hash(&b));
    a[1024] = 9;
    assert_ne!(frame_hash(&a), frame_hash(&b));
}

#[test]
fn cpu_fallback_checkerboard() {
    let data = cpu_fallback_frame(64, 33, FrameFormat::Bgra8888, 0);
    assert_eq!(data.len(), 64 * 33 * 4);
    assert_eq!(&data[0..4], &[200, 200, 200, 255]);
    assert_eq!(&data[32 * 4..32 * 4 + 4], &[50, 50, 50, 255]);
    let row32 = 32 * 64 * 4;
    assert_eq!(&data[row32..row32 + 4], &[50, 50, 50, 255]);
    // Shifted by one pixel in the next frame.
    let next = cpu_fallback_frame(64, 1, FrameFormat::Bgra8888, 1);
    assert_eq!(&next[31 * 4..31 * 4 + 4], &[50, 50, 50, 255]);
    let rgb = cpu_fallback_frame(2, 1, FrameFormat::Rgb888, 0);
    assert_eq!(rgb, vec![200, 200, 200, 200, 200, 200]);
}

#[test]
fn cpu_config_default() {
    let config = CpuCaptureConfig::default();
    assert_eq!(config.target_fps, 15);
    assert_eq!(config.format, FrameFormat::Bgra8888);
    assert!(config.frame_differencing);
}

#[test]
fn cpu_is_send_sync() {
    assert_send_sync::<CpuCapture>();
    assert_send_sync::<CpuCaptureConfig>();
}


#[test]
fn frame_build_by_clock_ends_after_start() {
    let mut clock = MonotonicClock::start();
    let t0 = clock.now();
    let metadata = FrameMetadataBuilder::new()
        .dimensions(1920, 1080)
        .format(FrameFormat::Bgra8888)
        .capture_start(t0)
        .build(&mut clock);
    assert_eq!(metadata.capture_start, t0);
    assert!(metadata.capture_end >= metadata.capture_start);
    assert_eq!(metadata.capture_latency(), metadata.capture_end.duration_since(metadata.capture_start));
}

#[test]
fn frame_age_and_freshness_by_clock() {
    let mut clock = MonotonicClock::start();
    let metadata = FrameMetadataBuilder::new().dimensions(10, 10).build(&mut clock);
    let a1 = metadata.age(&mut clock);
    let a2 = metadata.age(&mut clock);
    assert!(a1 <= a2);
    let frame = CaptureFrame::new(metadata, vec![0u8; 400]);
    assert!(frame.is_fresh(Duration::from_secs(3600), &mut clock));
    assert!(!frame.is_fresh(Duration::from_nanos(0), &mut clock));
    assert!(!frame.is_fresh(Duration::from_nanos(0), &mut clock));
}
