//! Captured frames: pixel formats, frame metadata and pixel data.

use vstd::prelude::*;
use std::sync::Arc;
use crate::time::{Duration, Instant, MonotonicClock};

verus! {

/// Pixel format of a captured frame.
#[derive(Clone, Copy, Debug, PartialEq, Eq, Hash, Structural)]
pub enum FrameFormat {
    /// 32-bit BGRA (DRM fourcc 0x34324742).
    Bgra8888,
    /// 32-bit RGBA (DRM fourcc 0x34324152).
    Rgba8888,
    /// 32-bit XRGB, no alpha (DRM fourcc 0x34325852).
    Xrgb8888,
    /// 32-bit XBGR, no alpha (DRM fourcc 0x34324258).
    Xbgr8888,
    /// 24-bit RGB (DRM fourcc 0x34324752).
    Rgb888,
    /// 24-bit BGR (DRM fourcc 0x52474218).
    Bgr888,
}

/// Bytes per pixel of a format.
pub open spec fn format_bpp(f: FrameFormat) -> u32 {
    match f {
        FrameFormat::Rgb888 | FrameFormat::Bgr888 => 3,
        _ => 4,
    }
}

/// The DRM fourcc code of a format.
pub open spec fn format_fourcc(f: FrameFormat) -> u32 {
    match f {
        FrameFormat::Bgra8888 => 0x34324742,
        FrameFormat::Rgba8888 => 0x34324152,
        FrameFormat::Xrgb8888 => 0x34325852,
        FrameFormat::Xbgr8888 => 0x34324258,
        FrameFormat::Rgb888 => 0x34324752,
        FrameFormat::Bgr888 => 0x52474218,
    }
}

/// The display name of a format.
pub open spec fn format_name(f: FrameFormat) -> &'static str {
    match f {
        FrameFormat::Bgra8888 => "BGRA8888",
        FrameFormat::Rgba8888 => "RGBA8888",
        FrameFormat::Xrgb8888 => "XRGB8888",
        FrameFormat::Xbgr8888 => "XBGR8888",
        FrameFormat::Rgb888 => "RGB888",
        FrameFormat::Bgr888 => "BGR888",
    }
}

impl FrameFormat {
    /// Bytes per pixel: 4 for the 32-bit formats, 3 for the 24-bit ones.
    pub fn bytes_per_pixel(&self) -> (r: usize)
        ensures
            r == format_bpp(*self),
    {
        match self {
            FrameFormat::Bgra8888 | FrameFormat::Rgba8888 | FrameFormat::Xrgb8888
            | FrameFormat::Xbgr8888 => 4,
            FrameFormat::Rgb888 | FrameFormat::Bgr888 => 3,
        }
    }

    /// True for the formats with an alpha channel (BGRA and RGBA).
    pub fn has_alpha(&self) -> (r: bool)
        ensures
            r == (*self is Bgra8888 || *self is Rgba8888),
    {
        match self {
            FrameFormat::Bgra8888 | FrameFormat::Rgba8888 => true,
            _ => false,
        }
    }

    /// The DRM fourcc code.
    pub fn fourcc(&self) -> (r: u32)
        ensures
            r == format_fourcc(*self),
    {
        match self {
            FrameFormat::Bgra8888 => 0x34324742,
            FrameFormat::Rgba8888 => 0x34324152,
            FrameFormat::Xrgb8888 => 0x34325852,
            FrameFormat::Xbgr8888 => 0x34324258,
            FrameFormat::Rgb888 => 0x34324752,
            FrameFormat::Bgr888 => 0x52474218,
        }
    }

    /// The display name, such as `"BGRA8888"`.
    pub fn name(&self) -> (r: &'static str)
        ensures
            r@ == format_name(*self)@,
    {
        match self {
            FrameFormat::Bgra8888 => "BGRA8888",
            FrameFormat::Rgba8888 => "RGBA8888",
            FrameFormat::Xrgb8888 => "XRGB8888",
            FrameFormat::Xbgr8888 => "XBGR8888",
            FrameFormat::Rgb888 => "RGB888",
            FrameFormat::Bgr888 => "BGR888",
        }
    }
}

/// Metadata of a captured frame.
#[derive(Clone, Copy, Debug, PartialEq, Eq, Structural)]
pub struct FrameMetadata {
    /// Frame sequence number.
    pub sequence: u64,
    /// Width in pixels.
    pub width: u32,
    /// Height in pixels.
    pub height: u32,
    /// Bytes per row.
    pub stride: u32,
    /// Pixel format.
    pub format: FrameFormat,
    /// When the capture began.
    pub capture_start: Instant,
    /// When the capture completed.
    pub capture_end: Instant,
    /// PipeWire node id, if any.
    pub pipewire_node: Option<u32>,
    /// Output (monitor) index.
    pub output_index: u32,
}

impl FrameMetadata {
    /// The time the capture took (zero if the end precedes the start).
    pub fn capture_latency(&self) -> (r: Duration)
        ensures
            r.nanos == if self.capture_end.nanos >= self.capture_start.nanos {
                self.capture_end.nanos - self.capture_start.nanos
            } else {
                0
            },
    {
        self.capture_end.duration_since(self.capture_start)
    }

    /// The frame's size in bytes: stride times height.
    pub fn frame_size(&self) -> (r: usize)
        requires
            self.stride * self.height <= usize::MAX,
        ensures
            r == self.stride * self.height,
    {
        self.stride as usize * self.height as usize
    }

    /// The frame's age at `now`: the time since the capture completed.
    pub fn age_at(&self, now: Instant) -> (r: Duration)
        ensures
            r.nanos == if now.nanos >= self.capture_end.nanos {
                now.nanos - self.capture_end.nanos
            } else {
                0
            },
    {
        now.duration_since(self.capture_end)
    }

    /// The frame's age read from `clock`: its age at the new reading,
    /// which is never earlier than the reading before, so a later age is
    /// never smaller (see [`crate::time::lemma_elapsed_never_decreases`]).
    pub fn age(&self, clock: &mut MonotonicClock) -> (r: Duration)
        ensures
            final(clock).last_reading() >= old(clock).last_reading(),
            final(clock).same_clock(*old(clock)),
            r.nanos == if final(clock).last_reading() >= self.capture_end.nanos {
                final(clock).last_reading() - self.capture_end.nanos
            } else {
                0
            },
    {
        let now = clock.now();
        self.age_at(now)
    }
}

/// `s` with the bytes 0 and 2 of every complete 4-byte pixel swapped;
/// trailing bytes of an incomplete pixel are left as they are.
pub open spec fn swap_red_blue(s: Seq<u8>) -> Seq<u8> {
    Seq::new(
        s.len(),
        |i: int|
            if i < 4 * (s.len() / 4) && i % 4 == 0 {
                s[i + 2]
            } else if i < 4 * (s.len() / 4) && i % 4 == 2 {
                s[i - 2]
            } else {
                s[i]
            },
    )
}

/// Swapping red and blue twice gives back the original bytes.
pub proof fn lemma_swap_red_blue_involution(s: Seq<u8>)
    ensures
        swap_red_blue(swap_red_blue(s)) == s,
{
    let t = swap_red_blue(s);
    assert(t.len() == s.len());
    assert forall|i: int| 0 <= i < s.len() implies #[trigger] swap_red_blue(t)[i] == s[i] by {
        let full = 4 * (s.len() / 4);
        if i < full && i % 4 == 0 {
            assert(i + 2 < full);
            assert((i + 2) % 4 == 2);
            assert(t[i + 2] == s[i]);
        } else if i < full && i % 4 == 2 {
            assert(i - 2 >= 0);
            assert((i - 2) % 4 == 0);
            assert(t[i - 2] == s[i]);
        }
    }
    assert(swap_red_blue(t) =~= s);
}

/// A captured frame: metadata and shared pixel data.
#[derive(Debug, Clone)]
pub struct CaptureFrame {
    /// Frame metadata.
    pub metadata: FrameMetadata,
    data: Arc<Vec<u8>>,
}

/// Whether the conversion of a frame of `from` to `to` is supported: same
/// format, or BGRA and RGBA in either direction.
pub open spec fn conversion_supported(from: FrameFormat, to: FrameFormat) -> bool {
    from == to || (from is Bgra8888 && to is Rgba8888) || (from is Rgba8888 && to is Bgra8888)
}

/// Another handle on the same pixel data (`Arc::clone`): the result holds
/// the same bytes as its argument.
#[verifier::external_body]
fn share_pixels(data: &Arc<Vec<u8>>) -> (r: Arc<Vec<u8>>)
    ensures
        r@ == data@,
{
    Arc::clone(data)
}

impl CaptureFrame {
    /// The pixel bytes.
    pub closed spec fn pixels(&self) -> Seq<u8> {
        self.data@
    }

    /// The frame's metadata: its public `metadata` field, which
    /// [`CaptureFrame::metadata`] returns.
    pub closed spec fn meta(&self) -> FrameMetadata {
        self.metadata
    }

    /// The frame's metadata (the `metadata` field).
    pub fn metadata(&self) -> (r: &FrameMetadata)
        ensures
            *r == self.meta(),
    {
        &self.metadata
    }

    /// A frame owning `data`.
    pub fn new(metadata: FrameMetadata, data: Vec<u8>) -> (r: CaptureFrame)
        ensures
            r.meta() == metadata,
            r.pixels() == data@,
    {
        CaptureFrame { metadata, data: Arc::new(data) }
    }

    /// A frame sharing already shared `data`.
    pub fn with_shared_data(metadata: FrameMetadata, data: Arc<Vec<u8>>) -> (r: CaptureFrame)
        ensures
            r.meta() == metadata,
            r.pixels() == data@,
    {
        CaptureFrame { metadata, data }
    }

    /// The pixel bytes.
    pub fn data(&self) -> (r: &[u8])
        ensures
            r@ == self.pixels(),
    {
        self.data.as_slice()
    }

    /// Another handle on the pixel data.
    pub fn shared_data(&self) -> (r: Arc<Vec<u8>>)
        ensures
            r@ == self.pixels(),
    {
        share_pixels(&self.data)
    }

    /// Width in pixels.
    pub fn width(&self) -> (r: u32)
        ensures
            r == self.meta().width,
    {
        self.metadata.width
    }

    /// Height in pixels.
    pub fn height(&self) -> (r: u32)
        ensures
            r == self.meta().height,
    {
        self.metadata.height
    }

    /// Pixel format.
    pub fn format(&self) -> (r: FrameFormat)
        ensures
            r == self.meta().format,
    {
        self.metadata.format
    }

    /// True when the frame is younger than `threshold` at `now`.
    pub fn is_fresh_at(&self, threshold: Duration, now: Instant) -> (r: bool)
        ensures
            r == ((if now.nanos >= self.meta().capture_end.nanos {
                now.nanos - self.meta().capture_end.nanos
            } else {
                0
            }) < threshold.nanos),
    {
        self.metadata.age_at(now).nanos < threshold.nanos
    }

    /// True when the frame is younger than `threshold` at a new reading of
    /// `clock`; once stale at a reading, a frame is stale at every later one
    /// (see [`lemma_stale_stays_stale`]).
    pub fn is_fresh(&self, threshold: Duration, clock: &mut MonotonicClock) -> (r: bool)
        ensures
            final(clock).last_reading() >= old(clock).last_reading(),
            final(clock).same_clock(*old(clock)),
            r == ((if final(clock).last_reading() >= self.meta().capture_end.nanos {
                final(clock).last_reading() - self.meta().capture_end.nanos
            } else {
                0
            }) < threshold.nanos),
    {
        let now = clock.now();
        self.is_fresh_at(threshold, now)
    }

    /// Another frame with the same metadata sharing the same pixel data.
    pub fn share(&self) -> (r: CaptureFrame)
        ensures
            r.meta() == self.meta(),
            r.pixels() == self.pixels(),
    {
        CaptureFrame { metadata: self.metadata, data: share_pixels(&self.data) }
    }

    /// The frame converted to `target_format` on the CPU, or `None` when the
    /// conversion is not supported. A frame already in the target format is
    /// returned sharing its data; BGRA and RGBA convert into each other by
    /// swapping the red and blue bytes of every pixel.
    pub fn convert_to(&self, target_format: FrameFormat) -> (r: Option<CaptureFrame>)
        ensures
            r is Some <==> conversion_supported(self.meta().format, target_format),
            r matches Some(f) ==> f.meta() == (FrameMetadata {
                format: target_format,
                ..self.meta()
            }),
            r matches Some(f) ==> f.pixels() == if self.meta().format == target_format {
                self.pixels()
            } else {
                swap_red_blue(self.pixels())
            },
    {
        if self.metadata.format == target_format {
            return Some(self.share());
        }
        let swap = match (self.metadata.format, target_format) {
            (FrameFormat::Bgra8888, FrameFormat::Rgba8888) => true,
            (FrameFormat::Rgba8888, FrameFormat::Bgra8888) => true,
            _ => false,
        };
        if !swap {
            return None;
        }
        let converted = swap_pixel_channels(self.data.as_slice());
        let mut metadata = self.metadata;
        metadata.format = target_format;
        Some(CaptureFrame::new(metadata, converted))
    }
}

/// Within `4 * q` bytes, the red byte of a pixel has its blue byte two
/// places on, and the blue byte its red byte two places back.
proof fn lemma_pixel_partner(i: int, q: int)
    requires
        0 <= i < 4 * q,
    ensures
        i % 4 == 0 ==> i + 2 < 4 * q,
        i % 4 == 2 ==> i >= 2,
{
    assert(i % 4 == 0 ==> i + 2 < 4 * q) by (nonlinear_arith)
        requires
            0 <= i < 4 * q,
    ;
    assert(i % 4 == 2 ==> i >= 2) by (nonlinear_arith)
        requires
            0 <= i,
    ;
}

/// A copy of `src` with red and blue swapped in every complete 4-byte pixel.
pub fn swap_pixel_channels(src: &[u8]) -> (r: Vec<u8>)
    ensures
        r@ == swap_red_blue(src@),
{
    let len = src.len();
    let full = len - len % 4;
    proof {
        vstd::arithmetic::div_mod::lemma_fundamental_div_mod(len as int, 4);
    }
    assert(full == 4 * (src@.len() / 4));
    let mut out: Vec<u8> = Vec::new();
    let mut i: usize = 0;
    while i < len
        invariant
            len == src@.len(),
            full == 4 * (src@.len() / 4),
            full <= len,
            i <= len,
            out@.len() == i,
            forall|k: int| 0 <= k < i ==> #[trigger] out@[k] == swap_red_blue(src@)[k],
        decreases len - i,
    {
        proof {
            if i < full {
                lemma_pixel_partner(i as int, (src@.len() / 4) as int);
            }
        }
        let b = if i < full && i % 4 == 0 {
            src[i + 2]
        } else if i < full && i % 4 == 2 {
            src[i - 2]
        } else {
            src[i]
        };
        assert(b == swap_red_blue(src@)[i as int]);
        out.push(b);
        i = i + 1;
    }
    assert(out@ =~= swap_red_blue(src@));
    out
}

/// Builder for frame metadata.
#[derive(Clone, Copy, Debug, PartialEq, Eq, Structural)]
pub struct FrameMetadataBuilder {
    sequence: u64,
    width: u32,
    height: u32,
    stride: Option<u32>,
    format: Option<FrameFormat>,
    capture_start: Option<Instant>,
    pipewire_node: Option<u32>,
    output_index: u32,
}

/// The metadata a builder with the given fields produces, completing at `now`:
/// BGRA unless a format was set, a stride of width times bytes per pixel
/// unless one was set, a start of `now` unless one was set.
pub open spec fn built_metadata(b: FrameMetadataBuilder, now: Instant) -> FrameMetadata {
    let format = match b.spec_format() {
        Some(f) => f,
        None => FrameFormat::Bgra8888,
    };
    FrameMetadata {
        sequence: b.spec_sequence(),
        width: b.spec_width(),
        height: b.spec_height(),
        stride: match b.spec_stride() {
            Some(s) => s,
            None => (b.spec_width() * format_bpp(format)) as u32,
        },
        format,
        capture_start: match b.spec_capture_start() {
            Some(t) => t,
            None => now,
        },
        capture_end: now,
        pipewire_node: b.spec_pipewire_node(),
        output_index: b.spec_output_index(),
    }
}

impl FrameMetadataBuilder {
    /// The sequence number set.
    pub closed spec fn spec_sequence(self) -> u64 {
        self.sequence
    }

    /// The width set.
    pub closed spec fn spec_width(self) -> u32 {
        self.width
    }

    /// The height set.
    pub closed spec fn spec_height(self) -> u32 {
        self.height
    }

    /// The stride set, if any.
    pub closed spec fn spec_stride(self) -> Option<u32> {
        self.stride
    }

    /// The format set, if any.
    pub closed spec fn spec_format(self) -> Option<FrameFormat> {
        self.format
    }

    /// The capture start set, if any.
    pub closed spec fn spec_capture_start(self) -> Option<Instant> {
        self.capture_start
    }

    /// The PipeWire node set, if any.
    pub closed spec fn spec_pipewire_node(self) -> Option<u32> {
        self.pipewire_node
    }

    /// The output index set.
    pub closed spec fn spec_output_index(self) -> u32 {
        self.output_index
    }

    /// Whether building cannot overflow the default stride.
    pub open spec fn can_build(self) -> bool {
        self.spec_stride() is Some || self.spec_width() * format_bpp(
            match self.spec_format() {
                Some(f) => f,
                None => FrameFormat::Bgra8888,
            },
        ) <= u32::MAX
    }

    /// A builder with nothing set: sequence 0, 0 by 0 pixels, output 0.
    pub fn new() -> (r: FrameMetadataBuilder)
        ensures
            r.spec_sequence() == 0,
            r.spec_width() == 0,
            r.spec_height() == 0,
            r.spec_stride() is None,
            r.spec_format() is None,
            r.spec_capture_start() is None,
            r.spec_pipewire_node() is None,
            r.spec_output_index() == 0,
    {
        FrameMetadataBuilder {
            sequence: 0,
            width: 0,
            height: 0,
            stride: None,
            format: None,
            capture_start: None,
            pipewire_node: None,
            output_index: 0,
        }
    }

    /// Sets the sequence number.
    pub fn sequence(self, seq: u64) -> (r: FrameMetadataBuilder)
        ensures
            r.spec_sequence() == seq,
            r.spec_width() == self.spec_width(),
            r.spec_height() == self.spec_height(),
            r.spec_stride() == self.spec_stride(),
            r.spec_format() == self.spec_format(),
            r.spec_capture_start() == self.spec_capture_start(),
            r.spec_pipewire_node() == self.spec_pipewire_node(),
            r.spec_output_index() == self.spec_output_index(),
    {
        FrameMetadataBuilder { sequence: seq, ..self }
    }

    /// Sets width and height.
    pub fn dimensions(self, width: u32, height: u32) -> (r: FrameMetadataBuilder)
        ensures
            r.spec_width() == width && r.spec_height() == height,
            r.spec_sequence() == self.spec_sequence(),
            r.spec_stride() == self.spec_stride(),
            r.spec_format() == self.spec_format(),
            r.spec_capture_start() == self.spec_capture_start(),
            r.spec_pipewire_node() == self.spec_pipewire_node(),
            r.spec_output_index() == self.spec_output_index(),
    {
        FrameMetadataBuilder { width, height, ..self }
    }

    /// Sets the stride.
    pub fn stride(self, stride: u32) -> (r: FrameMetadataBuilder)
        ensures
            r.spec_stride() == Some(stride),
            r.spec_sequence() == self.spec_sequence(),
            r.spec_width() == self.spec_width(),
            r.spec_height() == self.spec_height(),
            r.spec_format() == self.spec_format(),
            r.spec_capture_start() == self.spec_capture_start(),
            r.spec_pipewire_node() == self.spec_pipewire_node(),
            r.spec_output_index() == self.spec_output_index(),
    {
        FrameMetadataBuilder { stride: Some(stride), ..self }
    }

    /// Sets the pixel format.
    pub fn format(self, format: FrameFormat) -> (r: FrameMetadataBuilder)
        ensures
            r.spec_format() == Some(format),
            r.spec_sequence() == self.spec_sequence(),
            r.spec_width() == self.spec_width(),
            r.spec_height() == self.spec_height(),
            r.spec_stride() == self.spec_stride(),
            r.spec_capture_start() == self.spec_capture_start(),
            r.spec_pipewire_node() == self.spec_pipewire_node(),
            r.spec_output_index() == self.spec_output_index(),
    {
        FrameMetadataBuilder { format: Some(format), ..self }
    }

    /// Sets the capture start time.
    pub fn capture_start(self, start: Instant) -> (r: FrameMetadataBuilder)
        ensures
            r.spec_capture_start() == Some(start),
            r.spec_sequence() == self.spec_sequence(),
            r.spec_width() == self.spec_width(),
            r.spec_height() == self.spec_height(),
            r.spec_stride() == self.spec_stride(),
            r.spec_format() == self.spec_format(),
            r.spec_pipewire_node() == self.spec_pipewire_node(),
            r.spec_output_index() == self.spec_output_index(),
    {
        FrameMetadataBuilder { capture_start: Some(start), ..self }
    }

    /// Sets the PipeWire node id.
    pub fn pipewire_node(self, node: u32) -> (r: FrameMetadataBuilder)
        ensures
            r.spec_pipewire_node() == Some(node),
            r.spec_sequence() == self.spec_sequence(),
            r.spec_width() == self.spec_width(),
            r.spec_height() == self.spec_height(),
            r.spec_stride() == self.spec_stride(),
            r.spec_format() == self.spec_format(),
            r.spec_capture_start() == self.spec_capture_start(),
            r.spec_output_index() == self.spec_output_index(),
    {
        FrameMetadataBuilder { pipewire_node: Some(node), ..self }
    }

    /// Sets the output index.
    pub fn output_index(self, index: u32) -> (r: FrameMetadataBuilder)
        ensures
            r.spec_output_index() == index,
            r.spec_sequence() == self.spec_sequence(),
            r.spec_width() == self.spec_width(),
            r.spec_height() == self.spec_height(),
            r.spec_stride() == self.spec_stride(),
            r.spec_format() == self.spec_format(),
            r.spec_capture_start() == self.spec_capture_start(),
            r.spec_pipewire_node() == self.spec_pipewire_node(),
    {
        FrameMetadataBuilder { output_index: index, ..self }
    }

    /// The metadata, the capture completing at `now`.
    pub fn build_at(self, now: Instant) -> (r: FrameMetadata)
        requires
            self.can_build(),
        ensures
            r == built_metadata(self, now),
    {
        let format = match self.format {
            Some(f) => f,
            None => FrameFormat::Bgra8888,
        };
        let stride = match self.stride {
            Some(s) => s,
            None => self.width * (format.bytes_per_pixel() as u32),
        };
        let capture_start = match self.capture_start {
            Some(t) => t,
            None => now,
        };
        FrameMetadata {
            sequence: self.sequence,
            width: self.width,
            height: self.height,
            stride,
            format,
            capture_start,
            capture_end: now,
            pipewire_node: self.pipewire_node,
            output_index: self.output_index,
        }
    }

    /// The metadata, the capture completing now by `clock`. A capture
    /// start taken from the same clock no later than its reading before
    /// the call is no later than the end, and the latency is at least the
    /// time from the start to that reading.
    pub fn build(self, clock: &mut MonotonicClock) -> (r: FrameMetadata)
        requires
            self.can_build(),
        ensures
            final(clock).last_reading() >= old(clock).last_reading(),
            final(clock).same_clock(*old(clock)),
            r == built_metadata(self, Instant { nanos: final(clock).last_reading() }),
            self.spec_capture_start() matches Some(t) ==> (t.nanos <= old(clock).last_reading() ==> (
            r.capture_start.nanos <= r.capture_end.nanos && r.capture_end.nanos
                - r.capture_start.nanos >= old(clock).last_reading() - t.nanos)),
            self.spec_capture_start() is None ==> r.capture_start == r.capture_end,
    {
        let now = clock.now();
        self.build_at(now)
    }
}

impl Default for FrameMetadataBuilder {
    fn default() -> (r: FrameMetadataBuilder)
        ensures
            r == FrameMetadataBuilder::spec_new(),
    {
        FrameMetadataBuilder::new()
    }
}

impl FrameMetadataBuilder {
    /// The builder with nothing set.
    pub closed spec fn spec_new() -> FrameMetadataBuilder {
        FrameMetadataBuilder {
            sequence: 0,
            width: 0,
            height: 0,
            stride: None,
            format: None,
            capture_start: None,
            pipewire_node: None,
            output_index: 0,
        }
    }
}

/// A frame stale at one instant is stale at every later instant: its age
/// only grows.
pub proof fn lemma_stale_stays_stale(end: Instant, threshold: Duration, u1: Instant, u2: Instant)
    requires
        u1.nanos <= u2.nanos,
        (if u1.nanos >= end.nanos {
            u1.nanos - end.nanos
        } else {
            0
        }) >= threshold.nanos,
    ensures
        (if u2.nanos >= end.nanos {
            u2.nanos - end.nanos
        } else {
            0
        }) >= threshold.nanos,
{
    crate::time::lemma_elapsed_never_decreases(end, u1, u2);
}

} // verus!
