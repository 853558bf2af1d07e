//! Synthetic frame contents: the test pattern of shared memory capture,
//! the fallback frame of CPU capture, and the frame fingerprint used to
//! skip unchanged frames.

use vstd::prelude::*;
use crate::compositor::capture::frame::{format_bpp, FrameFormat};

verus! {

/// The bytes of one pixel of colour (`r`, `g`, `b`) in `format`, opaque.
pub open spec fn pixel_bytes(format: FrameFormat, r: u8, g: u8, b: u8) -> Seq<u8> {
    match format {
        FrameFormat::Rgba8888 => seq![r, g, b, 255u8],
        FrameFormat::Rgb888 => seq![r, g, b],
        FrameFormat::Bgr888 => seq![b, g, r],
        _ => seq![b, g, r, 255u8],
    }
}

/// The bytes of one pixel in `format`.
fn push_pixel(data: &mut Vec<u8>, format: FrameFormat, r: u8, g: u8, b: u8)
    ensures
        final(data)@ == old(data)@ + pixel_bytes(format, r, g, b),
{
    let ghost before = data@;
    match format {
        FrameFormat::Rgba8888 => {
            data.push(r);
            data.push(g);
            data.push(b);
            data.push(255);
        },
        FrameFormat::Rgb888 => {
            data.push(r);
            data.push(g);
            data.push(b);
        },
        FrameFormat::Bgr888 => {
            data.push(b);
            data.push(g);
            data.push(r);
        },
        _ => {
            data.push(b);
            data.push(g);
            data.push(r);
            data.push(255);
        },
    }
    assert(data@ =~= before + pixel_bytes(format, r, g, b));
}

/// The grey level of the checkerboard square holding (`x`, `y`) when the
/// board is shifted right by `shift`: light (200) on even squares, dark
/// (50) on odd ones, squares 32 pixels wide.
pub open spec fn checker_level(x: int, y: int, shift: int) -> u8 {
    if ((x + shift) / 32 + y / 32) % 2 == 0 {
        200
    } else {
        50
    }
}

/// Row `y` of the CPU fallback frame, its first `n` pixels.
pub open spec fn checker_row(format: FrameFormat, y: int, n: nat, shift: int) -> Seq<u8>
    decreases n,
{
    if n == 0 {
        Seq::empty()
    } else {
        let l = checker_level(n - 1, y, shift);
        checker_row(format, y, (n - 1) as nat, shift) + pixel_bytes(format, l, l, l)
    }
}

/// The first `rows` rows of the CPU fallback frame, `width` pixels each.
pub open spec fn checker_image(format: FrameFormat, width: nat, rows: nat, shift: int) -> Seq<u8>
    decreases rows,
{
    if rows == 0 {
        Seq::empty()
    } else {
        checker_image(format, width, (rows - 1) as nat, shift) + checker_row(
            format,
            rows - 1,
            width,
            shift,
        )
    }
}

/// The CPU fallback frame: a grey checkerboard of 32-pixel squares that
/// moves one pixel right per frame (wrapping every 32 frames), pixels in
/// `format`, rows top to bottom, `width * bpp` bytes per row.
pub fn cpu_fallback_frame(width: u32, height: u32, format: FrameFormat, sequence: u64) -> (r: Vec<u8>)
    requires
        height == 0 || width <= u32::MAX - 30,
    ensures
        r@ == checker_image(format, width as nat, height as nat, (sequence % 32) as int),
{
    let shift: u32 = (sequence % 32) as u32;
    let mut data: Vec<u8> = Vec::new();
    let mut y: u32 = 0;
    while y < height
        invariant
            height == 0 || width <= u32::MAX - 30,
            shift == sequence % 32,
            y <= height,
            data@ == checker_image(format, width as nat, y as nat, shift as int),
        decreases height - y,
    {
        let ghost start = data@;
        let mut x: u32 = 0;
        while x < width
            invariant
                width <= u32::MAX - 30,
                shift < 32,
                x <= width,
                data@ == start + checker_row(format, y as int, x as nat, shift as int),
            decreases width - x,
        {
            let cx = (x + shift) / 32;
            let cy = y / 32;
            let level: u8 = if (cx + cy) % 2 == 0 {
                200
            } else {
                50
            };
            let ghost mid = data@;
            push_pixel(&mut data, format, level, level, level);
            assert(data@ =~= start + checker_row(format, y as int, (x + 1) as nat, shift as int));
            x = x + 1;
        }
        y = y + 1;
    }
    data
}

/// The colour of the shared memory test pattern at (`x`, `y`): a white
/// bar 39 pixels wide centred at `bar`, over a gradient whose red follows
/// `x` and green follows `y`, with blue 128.
pub open spec fn gradient_colour(x: int, y: int, width: int, height: int, bar: int) -> (u8, u8, u8) {
    if -20 < x - bar < 20 {
        (255u8, 255u8, 255u8)
    } else {
        ((x * 255 / width) as u8, (y * 255 / height) as u8, 128u8)
    }
}

/// The bytes of one test pattern pixel: RGBA order for RGBA frames, BGRA
/// order for every other format.
pub open spec fn pattern_pixel(format: FrameFormat, c: (u8, u8, u8)) -> Seq<u8> {
    match format {
        FrameFormat::Rgba8888 => seq![c.0, c.1, c.2, 255u8],
        _ => seq![c.2, c.1, c.0, 255u8],
    }
}

/// Row `y` of the test pattern, its first `n` pixels.
pub open spec fn gradient_row(
    format: FrameFormat,
    y: int,
    n: nat,
    width: int,
    height: int,
    bar: int,
) -> Seq<u8>
    decreases n,
{
    if n == 0 {
        Seq::empty()
    } else {
        gradient_row(format, y, (n - 1) as nat, width, height, bar) + pattern_pixel(
            format,
            gradient_colour(n - 1, y, width, height, bar),
        )
    }
}

/// The first `rows` rows of the test pattern.
pub open spec fn gradient_image(format: FrameFormat, width: nat, height: nat, rows: nat, bar: int) -> Seq<
    u8,
>
    decreases rows,
{
    if rows == 0 {
        Seq::empty()
    } else {
        gradient_image(format, width, height, (rows - 1) as nat, bar) + gradient_row(
            format,
            rows - 1,
            width,
            width as int,
            height as int,
            bar,
        )
    }
}

/// Where the moving bar of frame `sequence` stands: ten pixels further
/// per frame, wrapping at the frame's width.
pub open spec fn bar_position(sequence: u64, width: u32) -> int {
    (sequence * 10) % (width as int)
}

/// The shared memory test pattern of frame `sequence`: a gradient with a
/// moving white bar (see [`gradient_colour`]), four bytes per pixel.
/// Formats of three bytes per pixel have no room for it; only four-byte
/// formats are accepted (or frames without rows).
pub fn shm_test_pattern(width: u32, height: u32, format: FrameFormat, sequence: u64) -> (r: Vec<u8>)
    requires
        width > 0,
        sequence * 10 <= u64::MAX,
        height == 0 || format_bpp(format) == 4,
        width * 4 * height <= u32::MAX,
        (width - 1) * 255 <= u32::MAX,
        height == 0 || (height - 1) * 255 <= u32::MAX,
    ensures
        r@ == gradient_image(
            format,
            width as nat,
            height as nat,
            height as nat,
            bar_position(sequence, width),
        ),
{
    let bar: u32 = ((sequence * 10) % (width as u64)) as u32;
    let mut data: Vec<u8> = Vec::new();
    let mut y: u32 = 0;
    while y < height
        invariant
            width > 0,
            (width - 1) * 255 <= u32::MAX,
            height == 0 || (height - 1) * 255 <= u32::MAX,
            bar == bar_position(sequence, width),
            bar < width,
            y <= height,
            data@ == gradient_image(format, width as nat, height as nat, y as nat, bar as int),
        decreases height - y,
    {
        let ghost start = data@;
        let mut x: u32 = 0;
        while x < width
            invariant
                width > 0,
                (width - 1) * 255 <= u32::MAX,
                y < height,
                (height - 1) * 255 <= u32::MAX,
                bar < width,
                x <= width,
                data@ == start + gradient_row(
                    format,
                    y as int,
                    x as nat,
                    width as int,
                    height as int,
                    bar as int,
                ),
            decreases width - x,
        {
            let near_bar = if x >= bar {
                x - bar < 20
            } else {
                bar - x < 20
            };
            let ghost before = data@;
            if near_bar {
                let ghost c = gradient_colour(x as int, y as int, width as int, height as int, bar as int);
                assert(c == (255u8, 255u8, 255u8));
                match format {
                    FrameFormat::Rgba8888 => push_pixel(&mut data, FrameFormat::Rgba8888, 255, 255, 255),
                    _ => push_pixel(&mut data, FrameFormat::Bgra8888, 255, 255, 255),
                }
            } else {
                assert(x * 255 <= (width - 1) * 255) by (nonlinear_arith)
                    requires
                        x < width,
                ;
                assert(y * 255 <= (height - 1) * 255) by (nonlinear_arith)
                    requires
                        y < height,
                ;
                let rx = x * 255;
                let gy = y * 255;
                assert(rx / width < 255) by (nonlinear_arith)
                    requires
                        rx == x * 255,
                        x < width,
                        width > 0,
                ;
                assert(gy / height < 255) by (nonlinear_arith)
                    requires
                        gy == y * 255,
                        y < height,
                        height > 0,
                ;
                let r: u8 = (rx / width) as u8;
                let g: u8 = (gy / height) as u8;
                match format {
                    FrameFormat::Rgba8888 => push_pixel(&mut data, FrameFormat::Rgba8888, r, g, 128),
                    _ => push_pixel(&mut data, FrameFormat::Bgra8888, r, g, 128),
                }
            }
            assert(data@ =~= start + gradient_row(
                format,
                y as int,
                (x + 1) as nat,
                width as int,
                height as int,
                bar as int,
            ));
            x = x + 1;
        }
        y = y + 1;
    }
    data
}

/// The FNV-1a fingerprint of the first `n` samples of `data`, one sample
/// every 1024 bytes.
pub open spec fn sampled_hash(data: Seq<u8>, n: nat) -> u64
    decreases n,
{
    if n == 0 {
        0xcbf29ce484222325u64
    } else {
        (sampled_hash(data, (n - 1) as nat) ^ (data[(n - 1) * 1024] as u64)).wrapping_mul(
            0x100000001b3u64,
        )
    }
}

/// The number of samples taken from `len` bytes: one every 1024.
pub open spec fn sample_count(len: nat) -> nat {
    ((len + 1023) / 1024) as nat
}

/// `len` bytes give `len / 1024` full blocks and one more sample for a
/// partial block; the `k`-th sample lies inside the data.
proof fn lemma_sample_count(len: nat, k: nat)
    ensures
        sample_count(len) == len / 1024 + if len % 1024 == 0 { 0nat } else { 1nat },
        k < sample_count(len) ==> k * 1024 < len,
{
    assert(sample_count(len) == len / 1024 + if len % 1024 == 0 { 0nat } else { 1nat })
        by (nonlinear_arith);
    assert(k < sample_count(len) ==> k * 1024 < len) by (nonlinear_arith)
        requires
            sample_count(len) == len / 1024 + if len % 1024 == 0 { 0nat } else { 1nat },
    ;
}

/// A cheap fingerprint of a frame, to tell unchanged frames apart: FNV-1a
/// over every 1024th byte.
pub fn frame_hash(data: &[u8]) -> (r: u64)
    ensures
        r == sampled_hash(data@, sample_count(data@.len())),
{
    let n = data.len();
    let count: usize = n / 1024 + if n % 1024 == 0 {
        0
    } else {
        1
    };
    proof {
        lemma_sample_count(n as nat, 0);
    }
    let mut hash: u64 = 0xcbf29ce484222325;
    let mut i: usize = 0;
    let mut k: usize = 0;
    while k < count
        invariant
            n == data@.len(),
            count == sample_count(n as nat),
            k <= count,
            k < count ==> i == k * 1024,
            hash == sampled_hash(data@, k as nat),
        decreases count - k,
    {
        proof {
            lemma_sample_count(n as nat, k as nat);
        }
        hash = (hash ^ (data[i] as u64)).wrapping_mul(0x100000001b3);
        k = k + 1;
        if k < count {
            proof {
                lemma_sample_count(n as nat, k as nat);
            }
            i = i + 1024;
        }
    }
    hash
}

proof fn lemma_pixel_bytes_len(format: FrameFormat, r: u8, g: u8, b: u8)
    ensures
        pixel_bytes(format, r, g, b).len() == format_bpp(format),
{
    match format {
        FrameFormat::Rgba8888 => {},
        FrameFormat::Rgb888 => {},
        FrameFormat::Bgr888 => {},
        FrameFormat::Bgra8888 => {},
        FrameFormat::Xrgb8888 => {},
        FrameFormat::Xbgr8888 => {},
    }
}

proof fn lemma_checker_row_len(format: FrameFormat, y: int, n: nat, shift: int)
    ensures
        checker_row(format, y, n, shift).len() == n * format_bpp(format),
    decreases n,
{
    if n > 0 {
        lemma_checker_row_len(format, y, (n - 1) as nat, shift);
        let l = checker_level(n - 1, y, shift);
        lemma_pixel_bytes_len(format, l, l, l);
        assert((n - 1) * format_bpp(format) + format_bpp(format) == n * format_bpp(format))
            by (nonlinear_arith);
    } else {
        assert(n * format_bpp(format) == 0) by (nonlinear_arith)
            requires
                n == 0,
        ;
    }
}

/// The fallback frame holds exactly `width * bpp` bytes per row.
pub proof fn lemma_checker_image_len(format: FrameFormat, width: nat, rows: nat, shift: int)
    ensures
        checker_image(format, width, rows, shift).len() == rows * (width * format_bpp(format)),
    decreases rows,
{
    if rows > 0 {
        lemma_checker_image_len(format, width, (rows - 1) as nat, shift);
        lemma_checker_row_len(format, rows - 1, width, shift);
        let x = width * format_bpp(format);
        assert((rows - 1) * x + x == rows * x) by (nonlinear_arith);
    } else {
        assert(rows * (width * format_bpp(format)) == 0) by (nonlinear_arith)
            requires
                rows == 0,
        ;
    }
}

proof fn lemma_gradient_row_len(
    format: FrameFormat,
    y: int,
    n: nat,
    width: int,
    height: int,
    bar: int,
)
    ensures
        gradient_row(format, y, n, width, height, bar).len() == n * 4,
    decreases n,
{
    if n > 0 {
        lemma_gradient_row_len(format, y, (n - 1) as nat, width, height, bar);
        let c = gradient_colour(n - 1, y, width, height, bar);
        assert(pattern_pixel(format, c).len() == 4);
        assert((n - 1) * 4 + 4 == n * 4);
    }
}

/// The test pattern holds exactly four bytes per pixel, `width * 4` per row.
pub proof fn lemma_gradient_image_len(format: FrameFormat, width: nat, height: nat, rows: nat, bar: int)
    ensures
        gradient_image(format, width, height, rows, bar).len() == rows * (width * 4),
    decreases rows,
{
    if rows > 0 {
        lemma_gradient_image_len(format, width, height, (rows - 1) as nat, bar);
        lemma_gradient_row_len(format, rows - 1, width, width as int, height as int, bar);
        let x = width * 4;
        assert((rows - 1) * x + x == rows * x) by (nonlinear_arith);
    } else {
        assert(rows * (width * 4) == 0) by (nonlinear_arith)
            requires
                rows == 0,
        ;
    }
}

} // verus!
