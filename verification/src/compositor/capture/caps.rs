//! Capture capabilities and capture errors.

use vstd::prelude::*;
use crate::compositor::capture::frame::FrameFormat;
use crate::compositor::capture::tier::CaptureTier;
use crate::time::Duration;
use vstd::string::StringExecFns;

verus! {

/// Errors of screen capture.
#[derive(Debug)]
pub enum CaptureError {
    /// The capture method is not available.
    NotAvailable(String),
    /// The Wayland connection failed.
    WaylandConnection(String),
    /// A required protocol is not supported.
    ProtocolNotSupported(String),
    /// A buffer could not be allocated.
    BufferAllocation(String),
    /// The capture timed out.
    Timeout(Duration),
    /// The capture session was closed.
    SessionClosed,
    /// An internal error.
    Internal(String),
}

/// What a capture backend offers.
#[derive(Debug)]
pub struct CaptureCapabilities {
    /// The backend's tier.
    pub tier: CaptureTier,
    /// Supported frame formats.
    pub formats: Vec<FrameFormat>,
    /// Maximum frame rate.
    pub max_fps: u32,
    /// Whether hardware encoding is available.
    pub hardware_encoding: bool,
    /// Estimated CPU overhead in percent.
    pub estimated_cpu_overhead: u8,
    /// Human-readable description.
    pub description: String,
}

impl CaptureCapabilities {
    /// DMA-BUF tier: 60 fps, hardware encoding, about 5% CPU.
    pub fn dmabuf(formats: Vec<FrameFormat>) -> (r: CaptureCapabilities)
        ensures
            r.tier == CaptureTier::Dmabuf,
            r.formats@ == formats@,
            r.max_fps == 60,
            r.hardware_encoding,
            r.estimated_cpu_overhead == 5,
            r.description@ == "GPU zero-copy via DMA-BUF"@,
    {
        CaptureCapabilities {
            tier: CaptureTier::Dmabuf,
            formats,
            max_fps: 60,
            hardware_encoding: true,
            estimated_cpu_overhead: 5,
            description: String::from_str("GPU zero-copy via DMA-BUF"),
        }
    }

    /// Shared memory tier: 60 fps, no hardware encoding, about 15% CPU.
    pub fn shm(formats: Vec<FrameFormat>) -> (r: CaptureCapabilities)
        ensures
            r.tier == CaptureTier::Shm,
            r.formats@ == formats@,
            r.max_fps == 60,
            !r.hardware_encoding,
            r.estimated_cpu_overhead == 15,
            r.description@ == "Shared memory capture (VM compatible)"@,
    {
        CaptureCapabilities {
            tier: CaptureTier::Shm,
            formats,
            max_fps: 60,
            hardware_encoding: false,
            estimated_cpu_overhead: 15,
            description: String::from_str("Shared memory capture (VM compatible)"),
        }
    }

    /// CPU tier: BGRA and RGBA, 30 fps, about 30% CPU.
    pub fn cpu() -> (r: CaptureCapabilities)
        ensures
            r.tier == CaptureTier::Cpu,
            r.formats@ == seq![FrameFormat::Bgra8888, FrameFormat::Rgba8888],
            r.max_fps == 30,
            !r.hardware_encoding,
            r.estimated_cpu_overhead == 30,
            r.description@ == "CPU framebuffer capture (universal)"@,
    {
        let mut formats = Vec::new();
        formats.push(FrameFormat::Bgra8888);
        formats.push(FrameFormat::Rgba8888);
        CaptureCapabilities {
            tier: CaptureTier::Cpu,
            formats,
            max_fps: 30,
            hardware_encoding: false,
            estimated_cpu_overhead: 30,
            description: String::from_str("CPU framebuffer capture (universal)"),
        }
    }

    /// No capture (input-only mode).
    pub fn none() -> (r: CaptureCapabilities)
        ensures
            r.tier == CaptureTier::Unavailable,
            r.formats@ == Seq::<FrameFormat>::empty(),
            r.max_fps == 0,
            !r.hardware_encoding,
            r.estimated_cpu_overhead == 0,
            r.description@ == "No screen capture available (input-only mode)"@,
    {
        CaptureCapabilities {
            tier: CaptureTier::Unavailable,
            formats: Vec::new(),
            max_fps: 0,
            hardware_encoding: false,
            estimated_cpu_overhead: 0,
            description: String::from_str("No screen capture available (input-only mode)"),
        }
    }

    /// PipeWire capture, which uses DMA-BUF where it can.
    pub fn pipewire(formats: Vec<FrameFormat>) -> (r: CaptureCapabilities)
        ensures
            r.tier == CaptureTier::Dmabuf,
            r.formats@ == formats@,
            r.max_fps == 60,
            r.hardware_encoding,
            r.estimated_cpu_overhead == 5,
    {
        CaptureCapabilities::dmabuf(formats)
    }

    /// The tier.
    pub fn tier(&self) -> (r: CaptureTier)
        ensures
            r == self.tier,
    {
        self.tier
    }

    /// True for the best tier (DMA-BUF).
    pub fn is_optimal(&self) -> (r: bool)
        ensures
            r == (self.tier == CaptureTier::Dmabuf),
    {
        self.tier == CaptureTier::Dmabuf
    }

    /// True when any capture is available.
    pub fn is_available(&self) -> (r: bool)
        ensures
            r == (self.tier != CaptureTier::Unavailable),
    {
        self.tier != CaptureTier::Unavailable
    }

    /// The frame rate a stream may run at: `target_fps` clamped to 1..=max_fps.
    pub fn clamp_fps(&self, target_fps: u32) -> (r: u32)
        requires
            self.max_fps >= 1,
        ensures
            r == if target_fps < 1 {
                1
            } else if target_fps > self.max_fps {
                self.max_fps
            } else {
                target_fps
            },
    {
        if target_fps < 1 {
            1
        } else if target_fps > self.max_fps {
            self.max_fps
        } else {
            target_fps
        }
    }
}

/// A screen capture backend, as the rest of the system sees it.
pub trait ScreenCapture {
    /// What the backend offers.
    spec fn spec_capabilities(&self) -> CaptureCapabilities;

    /// What the backend offers.
    fn capabilities(&self) -> (r: &CaptureCapabilities)
        ensures
            *r == self.spec_capabilities(),
    ;

    /// Whether a capture stream is running.
    fn is_capturing(&self) -> bool;

    /// Stops the capture stream.
    fn stop_stream(&self) -> Result<(), CaptureError>;
}

/// Conveniences every capture backend has.
pub trait ScreenCaptureExt: ScreenCapture {
    /// The backend's tier.
    fn tier(&self) -> (r: CaptureTier)
        ensures
            r == self.spec_capabilities().tier,
    {
        self.capabilities().tier
    }

    /// Whether the backend is of the best tier (DMA-BUF).
    fn is_optimal(&self) -> (r: bool)
        ensures
            r == (self.spec_capabilities().tier == CaptureTier::Dmabuf),
    {
        self.tier() == CaptureTier::Dmabuf
    }

    /// Whether the backend captures at all.
    fn is_available(&self) -> (r: bool)
        ensures
            r == (self.spec_capabilities().tier != CaptureTier::Unavailable),
    {
        self.tier() != CaptureTier::Unavailable
    }
}

impl<T: ScreenCapture> ScreenCaptureExt for T {}

} // verus!
