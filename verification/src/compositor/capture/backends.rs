//! Capture backends of the three tiers: configuration, format negotiation
//! and frame production.

use vstd::prelude::*;
use crate::compositor::capture::caps::{CaptureCapabilities, CaptureError, ScreenCapture};
use crate::compositor::capture::frame::{
    format_bpp, format_fourcc, CaptureFrame, FrameFormat, FrameMetadata,
};
use crate::compositor::capture::patterns::{
    bar_position, checker_image, cpu_fallback_frame, gradient_image, shm_test_pattern,
};
use crate::compositor::capture::tier::CaptureTier;
use crate::time::{Duration, Instant};
use vstd::string::StringExecFns;

verus! {

/// A DRM format with its modifier.
#[derive(Clone, Copy, Debug, PartialEq, Eq, Hash, Structural)]
pub struct DrmFormat {
    /// DRM fourcc code.
    pub fourcc: u32,
    /// DRM format modifier.
    pub modifier: u64,
}

impl DrmFormat {
    /// The linear (untiled) modifier.
    pub const MODIFIER_LINEAR: u64 = 0;

    /// The invalid modifier (the driver chooses).
    pub const MODIFIER_INVALID: u64 = 0x00ff_ffff_ffff_ffff;

    /// A DRM format.
    pub fn new(fourcc: u32, modifier: u64) -> (r: DrmFormat)
        ensures
            r.fourcc == fourcc,
            r.modifier == modifier,
    {
        DrmFormat { fourcc, modifier }
    }
}

/// DMA-BUF capture configuration.
#[derive(Debug)]
pub struct DmabufCaptureConfig {
    /// Preferred DRM formats, most preferred first.
    pub preferred_formats: Vec<DrmFormat>,
    /// Target frame rate.
    pub target_fps: u32,
}

impl Default for DmabufCaptureConfig {
    /// Linear BGRA then linear XRGB, at 60 fps.
    fn default() -> (r: DmabufCaptureConfig)
        ensures
            r.preferred_formats@ == seq![
                DrmFormat { fourcc: format_fourcc(FrameFormat::Bgra8888), modifier: 0 },
                DrmFormat { fourcc: format_fourcc(FrameFormat::Xrgb8888), modifier: 0 },
            ],
            r.target_fps == 60,
    {
        let mut preferred_formats = Vec::new();
        preferred_formats.push(DrmFormat::new(FrameFormat::Bgra8888.fourcc(), DrmFormat::MODIFIER_LINEAR));
        preferred_formats.push(DrmFormat::new(FrameFormat::Xrgb8888.fourcc(), DrmFormat::MODIFIER_LINEAR));
        DmabufCaptureConfig { preferred_formats, target_fps: 60 }
    }
}

/// The index of the first preferred format the compositor offers, or -1.
pub open spec fn first_offered(preferred: Seq<DrmFormat>, offered: Seq<DrmFormat>) -> int
    decreases preferred.len(),
{
    if preferred.len() == 0 {
        -1
    } else if offered.contains(preferred[0]) {
        0
    } else {
        let rest = first_offered(preferred.drop_first(), offered);
        if rest < 0 {
            -1
        } else {
            rest + 1
        }
    }
}

/// The format a DMA-BUF capture uses: the first preferred format the
/// compositor offers, else the first offered format, else the first
/// preferred one.
pub open spec fn active_format(preferred: Seq<DrmFormat>, offered: Seq<DrmFormat>) -> DrmFormat {
    let i = first_offered(preferred, offered);
    if i >= 0 {
        preferred[i]
    } else if offered.len() > 0 {
        offered[0]
    } else {
        preferred[0]
    }
}

proof fn lemma_first_offered(preferred: Seq<DrmFormat>, offered: Seq<DrmFormat>)
    ensures
        -1 <= first_offered(preferred, offered) < preferred.len(),
        first_offered(preferred, offered) >= 0 ==> offered.contains(
            preferred[first_offered(preferred, offered)],
        ) && forall|k: int|
            0 <= k < first_offered(preferred, offered) ==> !offered.contains(preferred[k]),
        first_offered(preferred, offered) < 0 ==> forall|k: int|
            0 <= k < preferred.len() ==> !offered.contains(preferred[k]),
    decreases preferred.len(),
{
    if preferred.len() > 0 {
        lemma_first_offered(preferred.drop_first(), offered);
        assert forall|k: int| 1 <= k < preferred.len() implies preferred[k]
            == preferred.drop_first()[k - 1] by {}
    }
}

/// The DRM format a capture of `offered` formats uses, preferring `preferred`.
pub fn select_active_format(preferred: &Vec<DrmFormat>, offered: &Vec<DrmFormat>) -> (r: DrmFormat)
    requires
        preferred@.len() > 0 || offered@.len() > 0,
    ensures
        r == active_format(preferred@, offered@),
{
    proof {
        lemma_first_offered(preferred@, offered@);
    }
    let mut i: usize = 0;
    while i < preferred.len()
        invariant
            i <= preferred@.len(),
            forall|k: int| 0 <= k < i ==> !offered@.contains(preferred@[k]),
            -1 <= first_offered(preferred@, offered@) < preferred@.len(),
            first_offered(preferred@, offered@) >= 0 ==> offered@.contains(
                preferred@[first_offered(preferred@, offered@)],
            ) && forall|k: int|
                0 <= k < first_offered(preferred@, offered@) ==> !offered@.contains(preferred@[k]),
            first_offered(preferred@, offered@) < 0 ==> forall|k: int|
                0 <= k < preferred@.len() ==> !offered@.contains(preferred@[k]),
        decreases preferred@.len() - i,
    {
        let p = preferred[i];
        let mut j: usize = 0;
        let mut found = false;
        while j < offered.len()
            invariant
                j <= offered@.len(),
                p == preferred@[i as int],
                found ==> offered@.contains(p),
                !found ==> forall|k: int| 0 <= k < j ==> offered@[k] != p,
            decreases offered@.len() - j,
        {
            if offered[j] == p {
                found = true;
            }
            j = j + 1;
        }
        if found {
            return p;
        }
        assert(!offered@.contains(p));
        i = i + 1;
    }
    if offered.len() > 0 {
        offered[0]
    } else {
        preferred[0]
    }
}

/// The frame format of a DRM fourcc, for the formats DMA-BUF capture maps:
/// BGRA, RGBA and XRGB.
pub open spec fn mapped_format(fourcc: u32) -> Option<FrameFormat> {
    if fourcc == format_fourcc(FrameFormat::Bgra8888) {
        Some(FrameFormat::Bgra8888)
    } else if fourcc == format_fourcc(FrameFormat::Rgba8888) {
        Some(FrameFormat::Rgba8888)
    } else if fourcc == format_fourcc(FrameFormat::Xrgb8888) {
        Some(FrameFormat::Xrgb8888)
    } else {
        None
    }
}

/// The frame formats of a list of DRM formats, in order, unmapped ones skipped.
pub open spec fn mapped_formats(offered: Seq<DrmFormat>) -> Seq<FrameFormat>
    decreases offered.len(),
{
    if offered.len() == 0 {
        Seq::empty()
    } else {
        match mapped_format(offered.last().fourcc) {
            Some(f) => mapped_formats(offered.drop_last()).push(f),
            None => mapped_formats(offered.drop_last()),
        }
    }
}

/// The frame formats of the offered DRM formats (see [`mapped_formats`]).
pub fn frame_formats_of(offered: &Vec<DrmFormat>) -> (r: Vec<FrameFormat>)
    ensures
        r@ == mapped_formats(offered@),
{
    let bgra = FrameFormat::Bgra8888.fourcc();
    let rgba = FrameFormat::Rgba8888.fourcc();
    let xrgb = FrameFormat::Xrgb8888.fourcc();
    let mut out: Vec<FrameFormat> = Vec::new();
    let mut i: usize = 0;
    while i < offered.len()
        invariant
            i <= offered@.len(),
            bgra == format_fourcc(FrameFormat::Bgra8888),
            rgba == format_fourcc(FrameFormat::Rgba8888),
            xrgb == format_fourcc(FrameFormat::Xrgb8888),
            out@ == mapped_formats(offered@.take(i as int)),
        decreases offered@.len() - i,
    {
        assert(offered@.take(i + 1).drop_last() =~= offered@.take(i as int));
        let fourcc = offered[i].fourcc;
        if fourcc == bgra {
            out.push(FrameFormat::Bgra8888);
        } else if fourcc == rgba {
            out.push(FrameFormat::Rgba8888);
        } else if fourcc == xrgb {
            out.push(FrameFormat::Xrgb8888);
        }
        i = i + 1;
    }
    assert(offered@.take(i as int) =~= offered@);
    out
}

/// Tier 1 capture through DMA-BUF.
#[derive(Debug)]
pub struct DmabufCapture {
    config: DmabufCaptureConfig,
    capabilities: CaptureCapabilities,
    width: u32,
    height: u32,
    active_format: DrmFormat,
    sequence: u64,
}

impl DmabufCapture {
    /// The capture's dimensions.
    pub closed spec fn spec_dimensions(&self) -> (u32, u32) {
        (self.width, self.height)
    }

    /// The negotiated DRM format.
    pub closed spec fn spec_active_format(&self) -> DrmFormat {
        self.active_format
    }

    /// The sequence number of the next frame.
    pub closed spec fn spec_sequence(&self) -> u64 {
        self.sequence
    }

    /// The frame formats offered.
    pub closed spec fn spec_formats(&self) -> Seq<FrameFormat> {
        self.capabilities.formats@
    }

    /// The tier of the capabilities (always DMA-BUF).
    pub closed spec fn spec_tier(&self) -> CaptureTier {
        self.capabilities.tier
    }

    /// A DMA-BUF capture of a `width` by `height` screen whose compositor
    /// offers `formats`.
    pub fn new(width: u32, height: u32, formats: Vec<DrmFormat>, config: DmabufCaptureConfig) -> (r:
        DmabufCapture)
        requires
            config.preferred_formats@.len() > 0 || formats@.len() > 0,
        ensures
            r.spec_dimensions() == (width, height),
            r.spec_active_format() == active_format(config.preferred_formats@, formats@),
            r.spec_formats() == mapped_formats(formats@),
            r.spec_tier() == CaptureTier::Dmabuf,
            r.spec_sequence() == 0,
    {
        let active_format = select_active_format(&config.preferred_formats, &formats);
        let frame_formats = frame_formats_of(&formats);
        let capabilities = CaptureCapabilities::dmabuf(frame_formats);
        DmabufCapture { config, capabilities, width, height, active_format, sequence: 0 }
    }

    /// A DMA-BUF capture offering linear BGRA, with the default configuration.
    pub fn with_defaults(width: u32, height: u32) -> (r: DmabufCapture)
        ensures
            r.spec_dimensions() == (width, height),
            r.spec_active_format() == (DrmFormat {
                fourcc: format_fourcc(FrameFormat::Bgra8888),
                modifier: 0,
            }),
            r.spec_formats() == seq![FrameFormat::Bgra8888],
            r.spec_tier() == CaptureTier::Dmabuf,
            r.spec_sequence() == 0,
    {
        let mut formats = Vec::new();
        formats.push(DrmFormat::new(FrameFormat::Bgra8888.fourcc(), DrmFormat::MODIFIER_LINEAR));
        let config = DmabufCaptureConfig::default();
        proof {
            let offered = seq![DrmFormat { fourcc: format_fourcc(FrameFormat::Bgra8888), modifier: 0 }];
            assert(formats@ =~= offered);
            assert(offered[0] == config.preferred_formats@[0]);
            assert(offered.contains(config.preferred_formats@[0]));
            reveal_with_fuel(mapped_formats, 2);
            assert(offered.drop_last() =~= Seq::<DrmFormat>::empty());
        }
        DmabufCapture::new(width, height, formats, config)
    }

    /// The capabilities.
    pub fn capabilities(&self) -> (r: &CaptureCapabilities)
        ensures
            r.tier == self.spec_tier(),
            r.formats@ == self.spec_formats(),
    {
        &self.capabilities
    }

    /// Captures a frame completing at `now`: BGRA, stride four bytes per
    /// pixel, the next sequence number, zeroed pixels of the full size.
    pub fn capture_frame_at(&mut self, now: Instant) -> (r: CaptureFrame)
        requires
            old(self).spec_dimensions().0 * 4 <= u32::MAX,
            old(self).spec_dimensions().0 * 4 * old(self).spec_dimensions().1 <= u32::MAX,
            old(self).spec_sequence() < u64::MAX,
        ensures
            r.meta() == (FrameMetadata {
                sequence: old(self).spec_sequence(),
                width: old(self).spec_dimensions().0,
                height: old(self).spec_dimensions().1,
                stride: (old(self).spec_dimensions().0 * 4) as u32,
                format: FrameFormat::Bgra8888,
                capture_start: now,
                capture_end: now,
                pipewire_node: None,
                output_index: 0,
            }),
            r.pixels().len() == old(self).spec_dimensions().0 * 4 * old(self).spec_dimensions().1,
            forall|i: int| 0 <= i < r.pixels().len() ==> r.pixels()[i] == 0,
            final(self).spec_sequence() == old(self).spec_sequence() + 1,
            final(self).spec_dimensions() == old(self).spec_dimensions(),
            final(self).spec_active_format() == old(self).spec_active_format(),
    {
        let sequence = self.sequence;
        self.sequence = self.sequence + 1;
        let stride = self.width * 4;
        let size = (stride * self.height) as usize;
        let data = zeroed_bytes(size);
        let metadata = FrameMetadata {
            sequence,
            width: self.width,
            height: self.height,
            stride,
            format: FrameFormat::Bgra8888,
            capture_start: now,
            capture_end: now,
            pipewire_node: None,
            output_index: 0,
        };
        CaptureFrame::new(metadata, data)
    }

    /// Streaming needs PipeWire: always `NotAvailable`.
    pub fn start_stream(&self, target_fps: u32) -> (r: Result<(), CaptureError>)
        ensures
            r matches Err(CaptureError::NotAvailable(m)) && m@
                == "DMA-BUF streaming requires PipeWire integration"@,
    {
        Err(
            CaptureError::NotAvailable(
                String::from_str("DMA-BUF streaming requires PipeWire integration"),
            ),
        )
    }
}

/// `n` zero bytes.
pub fn zeroed_bytes(n: usize) -> (r: Vec<u8>)
    ensures
        r@.len() == n,
        forall|i: int| 0 <= i < n ==> r@[i] == 0,
{
    let mut v: Vec<u8> = Vec::new();
    let mut i: usize = 0;
    while i < n
        invariant
            i <= n,
            v@.len() == i,
            forall|k: int| 0 <= k < i ==> v@[k] == 0,
        decreases n - i,
    {
        v.push(0);
        i = i + 1;
    }
    v
}

/// Shared memory capture configuration.
#[derive(Clone, Copy, Debug, PartialEq, Eq, Structural)]
pub struct ShmCaptureConfig {
    /// Target frame rate.
    pub target_fps: u32,
    /// Number of buffers (double or triple buffering).
    pub buffer_count: usize,
    /// Preferred pixel format.
    pub preferred_format: FrameFormat,
    /// Capture timeout.
    pub timeout: Duration,
}

impl Default for ShmCaptureConfig {
    /// 30 fps, two buffers, BGRA, a 100 ms timeout.
    fn default() -> (r: ShmCaptureConfig)
        ensures
            r.target_fps == 30,
            r.buffer_count == 2,
            r.preferred_format == FrameFormat::Bgra8888,
            r.timeout.nanos == 100_000_000,
    {
        ShmCaptureConfig {
            target_fps: 30,
            buffer_count: 2,
            preferred_format: FrameFormat::Bgra8888,
            timeout: Duration::from_millis(100),
        }
    }
}

/// Builder for shared memory captures.
#[derive(Clone, Copy, Debug, PartialEq, Eq, Structural)]
pub struct ShmCaptureBuilder {
    /// Screen width, once set.
    pub width: Option<u32>,
    /// Screen height, once set.
    pub height: Option<u32>,
    /// The configuration being built.
    pub config: ShmCaptureConfig,
}

impl ShmCaptureBuilder {
    /// A builder with no dimensions and the default configuration.
    pub fn new() -> (r: ShmCaptureBuilder)
        ensures
            r.width is None,
            r.height is None,
            r.config.target_fps == 30,
            r.config.buffer_count == 2,
            r.config.preferred_format == FrameFormat::Bgra8888,
            r.config.timeout.nanos == 100_000_000,
    {
        ShmCaptureBuilder { width: None, height: None, config: ShmCaptureConfig::default() }
    }

    /// Sets the screen dimensions.
    pub fn dimensions(self, width: u32, height: u32) -> (r: ShmCaptureBuilder)
        ensures
            r == (ShmCaptureBuilder { width: Some(width), height: Some(height), ..self }),
    {
        ShmCaptureBuilder { width: Some(width), height: Some(height), ..self }
    }

    /// Sets the target frame rate.
    pub fn target_fps(self, fps: u32) -> (r: ShmCaptureBuilder)
        ensures
            r == (ShmCaptureBuilder {
                config: ShmCaptureConfig { target_fps: fps, ..self.config },
                ..self
            }),
    {
        ShmCaptureBuilder { config: ShmCaptureConfig { target_fps: fps, ..self.config }, ..self }
    }

    /// Sets the preferred pixel format.
    pub fn format(self, format: FrameFormat) -> (r: ShmCaptureBuilder)
        ensures
            r == (ShmCaptureBuilder {
                config: ShmCaptureConfig { preferred_format: format, ..self.config },
                ..self
            }),
    {
        ShmCaptureBuilder {
            config: ShmCaptureConfig { preferred_format: format, ..self.config },
            ..self
        }
    }

    /// Sets the capture timeout.
    pub fn timeout(self, timeout: Duration) -> (r: ShmCaptureBuilder)
        ensures
            r == (ShmCaptureBuilder {
                config: ShmCaptureConfig { timeout, ..self.config },
                ..self
            }),
    {
        ShmCaptureBuilder { config: ShmCaptureConfig { timeout, ..self.config }, ..self }
    }

    /// The capture; the dimensions must have been set.
    pub fn build(self) -> (r: ShmCapture)
        requires
            self.width is Some,
            self.height is Some,
        ensures
            r.spec_dimensions() == (self.width->0, self.height->0),
            r.spec_config() == self.config,
            r.spec_sequence() == 0,
    {
        let width = match self.width {
            Some(w) => w,
            None => 0,
        };
        let height = match self.height {
            Some(h) => h,
            None => 0,
        };
        ShmCapture::new(width, height, self.config)
    }

    /// The capture, or `Internal("width not set")` / `Internal("height not set")`.
    pub fn try_build(self) -> (r: Result<ShmCapture, CaptureError>)
        ensures
            r is Ok <==> (self.width is Some && self.height is Some),
            self.width is None ==> (r matches Err(CaptureError::Internal(m)) && m@
                == "width not set"@),
            self.width is Some && self.height is None ==> (r matches Err(
                CaptureError::Internal(m),
            ) && m@ == "height not set"@),
            r matches Ok(c) ==> c.spec_dimensions() == (self.width->0, self.height->0)
                && c.spec_config() == self.config && c.spec_sequence() == 0,
    {
        let width = match self.width {
            Some(w) => w,
            None => {
                return Err(CaptureError::Internal(String::from_str("width not set")));
            },
        };
        let height = match self.height {
            Some(h) => h,
            None => {
                return Err(CaptureError::Internal(String::from_str("height not set")));
            },
        };
        Ok(ShmCapture::new(width, height, self.config))
    }
}

impl Default for ShmCaptureBuilder {
    fn default() -> (r: ShmCaptureBuilder)
        ensures
            r.width is None,
            r.height is None,
            r.config.target_fps == 30,
    {
        ShmCaptureBuilder::new()
    }
}

/// Tier 2 capture through shared memory.
#[derive(Debug)]
pub struct ShmCapture {
    config: ShmCaptureConfig,
    capabilities: CaptureCapabilities,
    width: u32,
    height: u32,
    format: FrameFormat,
    sequence: u64,
}

impl ShmCapture {
    /// The screen dimensions.
    pub closed spec fn spec_dimensions(&self) -> (u32, u32) {
        (self.width, self.height)
    }

    /// The configuration.
    pub closed spec fn spec_config(&self) -> ShmCaptureConfig {
        self.config
    }

    /// The pixel format of captured frames.
    pub closed spec fn spec_format(&self) -> FrameFormat {
        self.format
    }

    /// The sequence number of the next frame.
    pub closed spec fn spec_sequence(&self) -> u64 {
        self.sequence
    }

    /// A shared memory capture of a `width` by `height` screen, offering
    /// BGRA, RGBA and XRGB and capturing in the preferred format.
    pub fn new(width: u32, height: u32, config: ShmCaptureConfig) -> (r: ShmCapture)
        ensures
            r.spec_dimensions() == (width, height),
            r.spec_config() == config,
            r.spec_format() == config.preferred_format,
            r.spec_sequence() == 0,
            r.capabilities_spec().tier == CaptureTier::Shm,
            r.capabilities_spec().max_fps == 60,
            r.capabilities_spec().formats@ == seq![
                FrameFormat::Bgra8888,
                FrameFormat::Rgba8888,
                FrameFormat::Xrgb8888,
            ],
    {
        let mut formats = Vec::new();
        formats.push(FrameFormat::Bgra8888);
        formats.push(FrameFormat::Rgba8888);
        formats.push(FrameFormat::Xrgb8888);
        let capabilities = CaptureCapabilities::shm(formats);
        ShmCapture {
            config,
            capabilities,
            width,
            height,
            format: config.preferred_format,
            sequence: 0,
        }
    }

    /// The capabilities.
    pub closed spec fn capabilities_spec(&self) -> CaptureCapabilities {
        self.capabilities
    }

    /// A shared memory capture with the default configuration.
    pub fn with_defaults(width: u32, height: u32) -> (r: ShmCapture)
        ensures
            r.spec_dimensions() == (width, height),
            r.spec_format() == FrameFormat::Bgra8888,
            r.spec_sequence() == 0,
            r.capabilities_spec().tier == CaptureTier::Shm,
            r.capabilities_spec().max_fps == 60,
    {
        ShmCapture::new(width, height, ShmCaptureConfig::default())
    }

    /// The capabilities.
    pub fn capabilities(&self) -> (r: &CaptureCapabilities)
        ensures
            *r == self.capabilities_spec(),
    {
        &self.capabilities
    }

    /// The configuration.
    pub fn config(&self) -> (r: ShmCaptureConfig)
        ensures
            r == self.spec_config(),
    {
        self.config
    }

    /// Changes the screen dimensions.
    pub fn resize(&mut self, width: u32, height: u32)
        ensures
            final(self).spec_dimensions() == (width, height),
            final(self).spec_config() == old(self).spec_config(),
            final(self).spec_format() == old(self).spec_format(),
            final(self).spec_sequence() == old(self).spec_sequence(),
    {
        self.width = width;
        self.height = height;
    }

    /// Whether the next frame can be produced without overflow: a
    /// non-empty row, four-byte pixels when there are rows, and sizes and
    /// gradient steps that fit in 32 bits.
    pub open spec fn can_capture(&self) -> bool {
        let (w, h) = self.spec_dimensions();
        &&& w > 0
        &&& self.spec_sequence() < u64::MAX
        &&& self.spec_sequence() * 10 <= u64::MAX
        &&& h == 0 || format_bpp(self.spec_format()) == 4
        &&& w * format_bpp(self.spec_format()) <= u32::MAX
        &&& w * 4 * h <= u32::MAX
        &&& (w - 1) * 255 <= u32::MAX
        &&& h == 0 || (h - 1) * 255 <= u32::MAX
    }

    /// Captures a frame begun at `start` and finished at `now`. Each call
    /// takes a sequence number. A capture that took longer than the
    /// configured timeout fails; otherwise the frame holds the test
    /// pattern for its sequence number.
    pub fn capture_frame_at(&mut self, start: Instant, now: Instant) -> (r: Result<
        CaptureFrame,
        CaptureError,
    >)
        requires
            old(self).can_capture(),
        ensures
            final(self).spec_sequence() == old(self).spec_sequence() + 1,
            final(self).spec_dimensions() == old(self).spec_dimensions(),
            final(self).spec_config() == old(self).spec_config(),
            final(self).spec_format() == old(self).spec_format(),
            final(self).capabilities_spec() == old(self).capabilities_spec(),
            now.nanos - start.nanos > old(self).spec_config().timeout.nanos ==> (r matches Err(
                CaptureError::Timeout(t),
            ) && t == old(self).spec_config().timeout),
            now.nanos - start.nanos <= old(self).spec_config().timeout.nanos ==> (r matches Ok(f)
                && f.meta() == (FrameMetadata {
                sequence: old(self).spec_sequence(),
                width: old(self).spec_dimensions().0,
                height: old(self).spec_dimensions().1,
                stride: (old(self).spec_dimensions().0 * format_bpp(old(self).spec_format())) as u32,
                format: old(self).spec_format(),
                capture_start: start,
                capture_end: now,
                pipewire_node: None,
                output_index: 0,
            }) && f.pixels() == gradient_image(
                old(self).spec_format(),
                old(self).spec_dimensions().0 as nat,
                old(self).spec_dimensions().1 as nat,
                old(self).spec_dimensions().1 as nat,
                bar_position(old(self).spec_sequence(), old(self).spec_dimensions().0),
            )),
    {
        let sequence = self.sequence;
        self.sequence = self.sequence + 1;
        let elapsed = now.duration_since(start);
        if elapsed.nanos > self.config.timeout.nanos {
            return Err(CaptureError::Timeout(self.config.timeout));
        }
        let stride = self.width * (self.format.bytes_per_pixel() as u32);
        let data = shm_test_pattern(self.width, self.height, self.format, sequence);
        let metadata = FrameMetadata {
            sequence,
            width: self.width,
            height: self.height,
            stride,
            format: self.format,
            capture_start: start,
            capture_end: now,
            pipewire_node: None,
            output_index: 0,
        };
        Ok(CaptureFrame::new(metadata, data))
    }

    /// Starts streaming at `target_fps` clamped to 1..=60; returns the rate
    /// used.
    pub fn start_stream(&self, target_fps: u32) -> (r: Result<u32, CaptureError>)
        requires
            self.capabilities_spec().max_fps == 60,
        ensures
            r matches Ok(fps) && fps == if target_fps < 1 {
                1
            } else if target_fps > 60 {
                60
            } else {
                target_fps
            },
    {
        Ok(self.capabilities.clamp_fps(target_fps))
    }
}

/// CPU capture configuration.
#[derive(Clone, Copy, Debug, PartialEq, Eq, Structural)]
pub struct CpuCaptureConfig {
    /// Target frame rate (lower than the other tiers).
    pub target_fps: u32,
    /// Output format.
    pub format: FrameFormat,
    /// Whether unchanged frames are skipped.
    pub frame_differencing: bool,
}

impl Default for CpuCaptureConfig {
    /// 15 fps, BGRA, frame differencing on.
    fn default() -> (r: CpuCaptureConfig)
        ensures
            r.target_fps == 15,
            r.format == FrameFormat::Bgra8888,
            r.frame_differencing,
    {
        CpuCaptureConfig { target_fps: 15, format: FrameFormat::Bgra8888, frame_differencing: true }
    }
}

/// Tier 3 capture from the CPU: a universal fallback producing a moving
/// checkerboard.
#[derive(Debug)]
pub struct CpuCapture {
    config: CpuCaptureConfig,
    capabilities: CaptureCapabilities,
    width: u32,
    height: u32,
    sequence: u64,
}

impl CpuCapture {
    /// The screen dimensions.
    pub closed spec fn spec_dimensions(&self) -> (u32, u32) {
        (self.width, self.height)
    }

    /// The configuration.
    pub closed spec fn spec_config(&self) -> CpuCaptureConfig {
        self.config
    }

    /// The sequence number of the next frame.
    pub closed spec fn spec_sequence(&self) -> u64 {
        self.sequence
    }

    /// The capabilities.
    pub closed spec fn capabilities_spec(&self) -> CaptureCapabilities {
        self.capabilities
    }

    /// A CPU capture of a `width` by `height` screen: CPU tier, BGRA and
    /// RGBA, at most 30 fps, about 30% CPU.
    pub fn new(width: u32, height: u32, config: CpuCaptureConfig) -> (r: CpuCapture)
        ensures
            r.spec_dimensions() == (width, height),
            r.spec_config() == config,
            r.spec_sequence() == 0,
            r.capabilities_spec().tier == CaptureTier::Cpu,
            r.capabilities_spec().max_fps == 30,
            !r.capabilities_spec().hardware_encoding,
            r.capabilities_spec().estimated_cpu_overhead == 30,
    {
        CpuCapture { config, capabilities: CaptureCapabilities::cpu(), width, height, sequence: 0 }
    }

    /// A CPU capture with the default configuration.
    pub fn with_defaults(width: u32, height: u32) -> (r: CpuCapture)
        ensures
            r.spec_dimensions() == (width, height),
            r.spec_config().format == FrameFormat::Bgra8888,
            r.spec_config().target_fps == 15,
            r.spec_sequence() == 0,
            r.capabilities_spec().tier == CaptureTier::Cpu,
    {
        CpuCapture::new(width, height, CpuCaptureConfig::default())
    }

    /// The capabilities.
    pub fn capabilities(&self) -> (r: &CaptureCapabilities)
        ensures
            *r == self.capabilities_spec(),
    {
        &self.capabilities
    }

    /// Captures a frame begun at `start` and finished at `now`: the
    /// checkerboard for its sequence number, in the configured format.
    pub fn capture_frame_at(&mut self, start: Instant, now: Instant) -> (r: CaptureFrame)
        requires
            old(self).spec_sequence() < u64::MAX,
            old(self).spec_dimensions().0 * format_bpp(old(self).spec_config().format) <= u32::MAX,
            old(self).spec_dimensions().1 == 0 || old(self).spec_dimensions().0 <= u32::MAX - 30,
        ensures
            final(self).spec_sequence() == old(self).spec_sequence() + 1,
            final(self).spec_dimensions() == old(self).spec_dimensions(),
            final(self).spec_config() == old(self).spec_config(),
            final(self).capabilities_spec() == old(self).capabilities_spec(),
            r.meta() == (FrameMetadata {
                sequence: old(self).spec_sequence(),
                width: old(self).spec_dimensions().0,
                height: old(self).spec_dimensions().1,
                stride: (old(self).spec_dimensions().0 * format_bpp(old(self).spec_config().format)) as u32,
                format: old(self).spec_config().format,
                capture_start: start,
                capture_end: now,
                pipewire_node: None,
                output_index: 0,
            }),
            r.pixels() == checker_image(
                old(self).spec_config().format,
                old(self).spec_dimensions().0 as nat,
                old(self).spec_dimensions().1 as nat,
                (old(self).spec_sequence() % 32) as int,
            ),
    {
        let sequence = self.sequence;
        self.sequence = self.sequence + 1;
        let stride = self.width * (self.config.format.bytes_per_pixel() as u32);
        let data = cpu_fallback_frame(self.width, self.height, self.config.format, sequence);
        let metadata = FrameMetadata {
            sequence,
            width: self.width,
            height: self.height,
            stride,
            format: self.config.format,
            capture_start: start,
            capture_end: now,
            pipewire_node: None,
            output_index: 0,
        };
        CaptureFrame::new(metadata, data)
    }

    /// Starts streaming at `target_fps` clamped to 1..=30; returns the rate
    /// used.
    pub fn start_stream(&self, target_fps: u32) -> (r: Result<u32, CaptureError>)
        requires
            self.capabilities_spec().max_fps == 30,
        ensures
            r matches Ok(fps) && fps == if target_fps < 1 {
                1
            } else if target_fps > 30 {
                30
            } else {
                target_fps
            },
    {
        Ok(self.capabilities.clamp_fps(target_fps))
    }
}

/// PipeWire capture configuration.
#[derive(Debug)]
pub struct PipeWireConfig {
    /// Target frame rate.
    pub target_fps: u32,
    /// Whether the cursor is captured.
    pub capture_cursor: bool,
    /// Preferred pixel format.
    pub preferred_format: FrameFormat,
    /// Stream name, for debugging.
    pub stream_name: String,
}

impl Default for PipeWireConfig {
    /// 30 fps, cursor captured, BGRA, stream "ionChannel Screen Capture".
    fn default() -> (r: PipeWireConfig)
        ensures
            r.target_fps == 30,
            r.capture_cursor,
            r.preferred_format == FrameFormat::Bgra8888,
            r.stream_name@ == "ionChannel Screen Capture"@,
    {
        PipeWireConfig {
            target_fps: 30,
            capture_cursor: true,
            preferred_format: FrameFormat::Bgra8888,
            stream_name: String::from_str("ionChannel Screen Capture"),
        }
    }
}

impl ScreenCapture for DmabufCapture {
    closed spec fn spec_capabilities(&self) -> CaptureCapabilities {
        self.capabilities
    }

    fn capabilities(&self) -> (r: &CaptureCapabilities) {
        &self.capabilities
    }

    /// Streams are not supported, so nothing is ever being captured.
    fn is_capturing(&self) -> (r: bool)
        ensures
            !r,
    {
        false
    }

    fn stop_stream(&self) -> (r: Result<(), CaptureError>)
        ensures
            r is Ok,
    {
        Ok(())
    }
}

impl ScreenCapture for ShmCapture {
    closed spec fn spec_capabilities(&self) -> CaptureCapabilities {
        self.capabilities
    }

    fn capabilities(&self) -> (r: &CaptureCapabilities) {
        &self.capabilities
    }

    fn is_capturing(&self) -> (r: bool)
        ensures
            !r,
    {
        false
    }

    fn stop_stream(&self) -> (r: Result<(), CaptureError>)
        ensures
            r is Ok,
    {
        Ok(())
    }
}

impl ScreenCapture for CpuCapture {
    closed spec fn spec_capabilities(&self) -> CaptureCapabilities {
        self.capabilities
    }

    fn capabilities(&self) -> (r: &CaptureCapabilities) {
        &self.capabilities
    }

    fn is_capturing(&self) -> (r: bool)
        ensures
            !r,
    {
        false
    }

    fn stop_stream(&self) -> (r: Result<(), CaptureError>)
        ensures
            r is Ok,
    {
        Ok(())
    }
}

} // verus!
