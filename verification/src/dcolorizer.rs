//! Depth <-> false-color codec.
//!
//! `colorize` maps a packed 16-bit depth buffer to a packed RGB buffer;
//! `decolorize` is its best-effort inverse. Depth is first turned into
//! disparity (1/depth), clamped into the window derived from the
//! configured depth bounds, normalized onto a 1530-step ramp, and then fed
//! through three piecewise-linear channel ramps over six 255-wide
//! segments. Each channel byte is the raw ramp value masked to 8 bits — a
//! deliberate wraparound, not a clamp. Pixel `i` of the output depends
//! only on pixel `i` of the input, so the buffer is processed in parallel
//! chunks with deterministic results.

use vstd::prelude::*;

use rayon::prelude::ParallelSlice;
use rayon::prelude::ParallelSliceMut;
use rayon::prelude::IndexedParallelIterator;
use rayon::prelude::ParallelIterator;

verus! {

/// The 16-bit depth sample held by two consecutive buffer bytes, in the
/// declared byte order.
pub open spec fn depth_val(b0: u8, b1: u8, big_endian: bool) -> int {
    if big_endian {
        256 * b0 + b1
    } else {
        256 * b1 + b0
    }
}

/// Depth 0 means "no return" and stands for the farthest point, i.e. the
/// maximum disparity, which the clamp window ties to `min_depth`; every
/// other sample saturates into the window.
pub open spec fn effective_depth(d: int, min_depth: int, max_depth: int) -> int {
    if d == 0 {
        min_depth
    } else if d < min_depth {
        min_depth
    } else if d > max_depth {
        max_depth
    } else {
        d
    }
}

/// Position of a depth sample along the colormap ramp: the normalization
/// `1529 * (disparity - min_disparity) / (max_disparity - min_disparity)`
/// truncated to an integer, written over the integers as
/// `1529 * min_depth * (max_depth - e) / (e * (max_depth - min_depth))`
/// for the effective depth `e`. A degenerate window (equal bounds) yields 0.
pub open spec fn dnormal_of_depth(d: int, min_depth: int, max_depth: int) -> int {
    if min_depth == max_depth {
        0
    } else {
        let e = effective_depth(d, min_depth, max_depth);
        (1529 * min_depth * (max_depth - e)) / (e * (max_depth - min_depth))
    }
}

/// Raw red ramp: high on both outer segments, dipping through the middle.
/// On the descending limb the raw value `255 - n` runs negative and is
/// brought back by the 8-bit mask.
pub open spec fn red_raw(n: int) -> int {
    if n <= 255 {
        255
    } else if n <= 510 {
        255 - n
    } else if n <= 1020 {
        0
    } else if n <= 1275 {
        n - 1020
    } else {
        255
    }
}

/// Raw green ramp: rises, holds, falls across the first three segments,
/// then stays zero.
pub open spec fn green_raw(n: int) -> int {
    if n <= 255 {
        n
    } else if n <= 510 {
        255
    } else if n <= 765 {
        765 - n
    } else {
        0
    }
}

/// Raw blue ramp: zero through the first three segments, then rises,
/// holds, falls.
pub open spec fn blue_raw(n: int) -> int {
    if n <= 765 {
        0
    } else if n <= 1020 {
        n - 765
    } else if n <= 1275 {
        255
    } else {
        1529 - n
    }
}

/// The stored channel byte: the raw ramp masked to 8 bits. This is a
/// wraparound (Euclidean remainder), not a saturating clamp: -1 maps
/// to 255.
pub open spec fn mask8(v: int) -> int {
    v % 256
}

pub open spec fn red_of(n: int) -> int {
    mask8(red_raw(n))
}

pub open spec fn green_of(n: int) -> int {
    mask8(green_raw(n))
}

pub open spec fn blue_of(n: int) -> int {
    mask8(blue_raw(n))
}

/// The three channel bytes for a normalized scalar.
pub fn color_ramp(n: u16) -> (rgb: (u8, u8, u8))
    requires
        n <= 1529,
    ensures
        rgb.0 == red_of(n as int),
        rgb.1 == green_of(n as int),
        rgb.2 == blue_of(n as int),
{
    let r: u8 = if n <= 255 {
        255
    } else if n <= 510 {
        // raw 255 - n is in [-255, -1]; masked to 8 bits it is 511 - n
        (511 - n) as u8
    } else if n <= 1020 {
        0
    } else if n <= 1275 {
        (n - 1020) as u8
    } else {
        255
    };
    let g: u8 = if n <= 255 {
        n as u8
    } else if n <= 510 {
        255
    } else if n <= 765 {
        (765 - n) as u8
    } else {
        0
    };
    let b: u8 = if n <= 765 {
        0
    } else if n <= 1020 {
        (n - 765) as u8
    } else if n <= 1275 {
        255
    } else {
        (1529 - n) as u8
    };
    (r, g, b)
}

/// Decodes two depth bytes and normalizes the sample onto the ramp.
pub fn dnormal_of_sample(b0: u8, b1: u8, big_endian: bool, min_depth: u16, max_depth: u16) -> (n:
    u16)
    requires
        1 <= min_depth,
        min_depth <= max_depth,
    ensures
        n == dnormal_of_depth(depth_val(b0, b1, big_endian), min_depth as int, max_depth as int),
        n <= 1529,
{
    let d: u16 = if big_endian {
        256 * (b0 as u16) + (b1 as u16)
    } else {
        256 * (b1 as u16) + (b0 as u16)
    };
    if min_depth == max_depth {
        return 0;
    }
    let e: u16 = if d == 0 {
        min_depth
    } else if d < min_depth {
        min_depth
    } else if d > max_depth {
        max_depth
    } else {
        d
    };
    let lo: u64 = min_depth as u64;
    let span: u64 = (max_depth - e) as u64;
    let window: u64 = (max_depth - min_depth) as u64;
    assert(1529 * (lo as int) * (span as int) <= 1529 * 65535 * 65535) by (nonlinear_arith)
        requires
            0 <= lo <= 65535,
            0 <= span <= 65535,
    ;
    let num: u64 = 1529 * lo * span;
    assert((e as int) * (window as int) >= 1 && (e as int) * (window as int) <= 65535 * 65535)
        by (nonlinear_arith)
        requires
            1 <= e as int <= 65535,
            1 <= window as int <= 65535,
    ;
    let den: u64 = (e as u64) * window;
    assert((num as int) <= 1529 * (den as int)) by (nonlinear_arith)
        requires
            num == 1529 * (lo as int) * (span as int),
            den == (e as int) * (window as int),
            lo <= e as int,
            span <= window as int,
            0 <= lo,
            0 <= span,
            0 <= e as int,
            0 <= window as int,
    ;
    let n64: u64 = num / den;
    assert(n64 <= 1529) by (nonlinear_arith)
        requires
            n64 == (num as int) / (den as int),
            num as int <= 1529 * (den as int),
            den as int >= 1,
    ;
    n64 as u16
}

/// Best-effort inverse of the ramp: colors whose channels sum below 255
/// fall to 0; otherwise the dominant channel (ties resolved red, then
/// green, then blue) picks the limb to invert. Lossy at segment boundaries
/// and for colors the forward ramp never produces.
pub open spec fn dnormal_of_rgb(r: int, g: int, b: int) -> int {
    if r + g + b < 255 {
        0
    } else if r >= g && r >= b {
        if g >= b {
            g - b
        } else {
            g - b + 1529
        }
    } else if g >= r && g >= b {
        b - r + 510
    } else if b >= g && b >= r {
        r - g + 1020
    } else {
        0
    }
}

/// Depth recovered from a normalized scalar: the normalization inverted
/// (disparity = min_disparity + (max_disparity - min_disparity) * n / 1529)
/// followed by depth = 1/disparity, truncated; over the integers
/// `1529 * min_depth * max_depth / (1529 * min_depth + (max_depth - min_depth) * n)`.
pub open spec fn depth_of_dnormal(n: int, min_depth: int, max_depth: int) -> int {
    (1529 * min_depth * max_depth) / (1529 * min_depth + (max_depth - min_depth) * n)
}

/// First byte of an encoded depth sample in the declared byte order.
pub open spec fn depth_byte0(v: int, big_endian: bool) -> int {
    if big_endian {
        v / 256
    } else {
        v % 256
    }
}

/// Second byte of an encoded depth sample in the declared byte order.
pub open spec fn depth_byte1(v: int, big_endian: bool) -> int {
    if big_endian {
        v % 256
    } else {
        v / 256
    }
}

/// Recovers the normalized scalar from one RGB triple.
pub fn dnormal_of_color(r: u8, g: u8, b: u8) -> (n: u16)
    ensures
        n == dnormal_of_rgb(r as int, g as int, b as int),
        n <= 1529,
{
    let rr: u16 = r as u16;
    let gg: u16 = g as u16;
    let bb: u16 = b as u16;
    if rr + gg + bb < 255 {
        0
    } else if rr >= gg && rr >= bb {
        if gg >= bb {
            gg - bb
        } else {
            gg + 1529 - bb
        }
    } else if gg >= rr && gg >= bb {
        bb + 510 - rr
    } else if bb >= gg && bb >= rr {
        rr + 1020 - gg
    } else {
        0
    }
}

/// Depth sample for a normalized scalar; the result always lands inside
/// the clamp window, so the final clamp to the 16-bit range is implicit.
pub fn depth_for_dnormal(n: u16, min_depth: u16, max_depth: u16) -> (d: u16)
    requires
        1 <= min_depth,
        min_depth <= max_depth,
        n <= 1529,
    ensures
        d == depth_of_dnormal(n as int, min_depth as int, max_depth as int),
        min_depth <= d <= max_depth,
{
    let lo: u64 = min_depth as u64;
    let hi: u64 = max_depth as u64;
    let window: u64 = (max_depth - min_depth) as u64;
    assert(1529 * (lo as int) * (hi as int) <= 1529 * 65535 * 65535) by (nonlinear_arith)
        requires
            0 <= lo <= 65535,
            0 <= hi <= 65535,
    ;
    let num: u64 = 1529 * lo * hi;
    assert(0 <= (window as int) * (n as int) <= 65535 * 1529) by (nonlinear_arith)
        requires
            0 <= window as int <= 65535,
            0 <= n as int <= 1529,
    ;
    let den: u64 = 1529 * lo + window * (n as u64);
    assert((lo as int) * (den as int) <= (num as int) && (num as int) <= (hi as int) * (den as int))
        by (nonlinear_arith)
        requires
            num == 1529 * (lo as int) * (hi as int),
            den == 1529 * (lo as int) + (window as int) * (n as int),
            window == hi - lo,
            1 <= lo <= hi,
            0 <= n as int <= 1529,
    ;
    let d64: u64 = num / den;
    assert((lo as int) <= (d64 as int) <= (hi as int)) by (nonlinear_arith)
        requires
            d64 == (num as int) / (den as int),
            (lo as int) * (den as int) <= num as int,
            num as int <= (hi as int) * (den as int),
            den as int >= 1,
            lo >= 0,
    ;
    d64 as u16
}

/// Decodes one RGB triple back to an encoded depth sample in the declared
/// byte order.
pub fn decolorize_pixel(r: u8, g: u8, b: u8, big_endian: bool, min_depth: u16, max_depth: u16) -> (bytes: (u8, u8))
    requires
        1 <= min_depth,
        min_depth <= max_depth,
    ensures
        ({
            let d = depth_of_dnormal(
                dnormal_of_rgb(r as int, g as int, b as int),
                min_depth as int,
                max_depth as int,
            );
            bytes.0 == depth_byte0(d, big_endian) && bytes.1 == depth_byte1(d, big_endian)
        }),
{
    let n = dnormal_of_color(r, g, b);
    let d = depth_for_dnormal(n, min_depth, max_depth);
    if big_endian {
        ((d / 256) as u8, (d % 256) as u8)
    } else {
        ((d % 256) as u8, (d / 256) as u8)
    }
}

/// Colors one encoded depth sample: decode, normalize, ramp.
pub fn colorize_pixel(b0: u8, b1: u8, big_endian: bool, min_depth: u16, max_depth: u16) -> (rgb: (
    u8,
    u8,
    u8,
))
    requires
        1 <= min_depth,
        min_depth <= max_depth,
    ensures
        ({
            let n = dnormal_of_depth(
                depth_val(b0, b1, big_endian),
                min_depth as int,
                max_depth as int,
            );
            rgb.0 == red_of(n) && rgb.1 == green_of(n) && rgb.2 == blue_of(n)
        }),
{
    let n = dnormal_of_sample(b0, b1, big_endian, min_depth, max_depth);
    color_ramp(n)
}

/// Pixel `i` of the colorized output is the ramp color of depth pixel `i`
/// of the input.
pub open spec fn colorized_pixel_ok(
    from: Seq<u8>,
    to: Seq<u8>,
    i: int,
    big_endian: bool,
    min_depth: int,
    max_depth: int,
) -> bool {
    let n = dnormal_of_depth(depth_val(from[2 * i], from[2 * i + 1], big_endian), min_depth, max_depth);
    &&& to[3 * i] == red_of(n)
    &&& to[3 * i + 1] == green_of(n)
    &&& to[3 * i + 2] == blue_of(n)
}

/// Pixel `i` of the decolorized output encodes the depth recovered from
/// RGB pixel `i` of the input. The color channels are always read in
/// R, G, B order; the byte order only affects the depth encoding.
pub open spec fn decolorized_pixel_ok(
    from: Seq<u8>,
    to: Seq<u8>,
    i: int,
    big_endian: bool,
    min_depth: int,
    max_depth: int,
) -> bool {
    let d = depth_of_dnormal(
        dnormal_of_rgb(from[3 * i] as int, from[3 * i + 1] as int, from[3 * i + 2] as int),
        min_depth,
        max_depth,
    );
    &&& to[2 * i] == depth_byte0(d, big_endian)
    &&& to[2 * i + 1] == depth_byte1(d, big_endian)
}

/// Relies on rayon's `par_chunks_exact`, `zip` and `for_each`: the input
/// splits into consecutive non-overlapping 2-byte chunks, each paired by
/// index with the matching 3-byte output chunk, and the closure — one call
/// of the verified `colorize_pixel` plus three element writes — runs once
/// per pair. Chunking is exact because the lengths divide evenly.
#[verifier::external_body]
fn colorize_pixels_par(
    from: &Vec<u8>,
    to: &mut Vec<u8>,
    big_endian: bool,
    min_depth: u16,
    max_depth: u16,
)
    requires
        1 <= min_depth,
        min_depth <= max_depth,
        from@.len() % 2 == 0,
        3 * from@.len() == 2 * old(to)@.len(),
    ensures
        final(to)@.len() == old(to)@.len(),
        forall|i: int|
            0 <= i < from@.len() / 2 ==> colorized_pixel_ok(
                from@,
                final(to)@,
                i,
                big_endian,
                min_depth as int,
                max_depth as int,
            ),
{
    from.par_chunks_exact(2).zip(to.par_chunks_exact_mut(3)).for_each(
        |(depth, pixel): (&[u8], &mut [u8])|
            {
                let rgb = colorize_pixel(depth[0], depth[1], big_endian, min_depth, max_depth);
                pixel[0] = rgb.0;
                pixel[1] = rgb.1;
                pixel[2] = rgb.2;
            },
    );
}

/// Relies on rayon's `par_chunks_exact`, `zip` and `for_each`, as in
/// `colorize_pixels_par` with the chunk sizes swapped: 3-byte RGB chunks
/// paired by index with 2-byte depth chunks, the closure one call of the
/// verified `decolorize_pixel` plus two element writes.
#[verifier::external_body]
fn decolorize_pixels_par(
    from: &Vec<u8>,
    to: &mut Vec<u8>,
    big_endian: bool,
    min_depth: u16,
    max_depth: u16,
)
    requires
        1 <= min_depth,
        min_depth <= max_depth,
        from@.len() % 3 == 0,
        2 * from@.len() == 3 * old(to)@.len(),
    ensures
        final(to)@.len() == old(to)@.len(),
        forall|i: int|
            0 <= i < from@.len() / 3 ==> decolorized_pixel_ok(
                from@,
                final(to)@,
                i,
                big_endian,
                min_depth as int,
                max_depth as int,
            ),
{
    from.par_chunks_exact(3).zip(to.par_chunks_exact_mut(2)).for_each(
        |(pixel, depth): (&[u8], &mut [u8])|
            {
                let bytes = decolorize_pixel(
                    pixel[0],
                    pixel[1],
                    pixel[2],
                    big_endian,
                    min_depth,
                    max_depth,
                );
                depth[0] = bytes.0;
                depth[1] = bytes.1;
            },
    );
}

/// The pixel layouts the transform negotiates between: packed RGB color
/// and 16-bit grayscale depth in either byte order.
#[derive(Clone, Copy, Debug, PartialEq, Eq, Structural)]
pub enum VideoFormat {
    Rgb,
    Gray16Le,
    Gray16Be,
}

/// The work one buffer pass performs, as settled by the negotiated pad
/// formats.
#[derive(Clone, Copy, Debug, PartialEq, Eq, Structural)]
pub enum TransformOp {
    Colorize { big_endian: bool },
    Decolorize { big_endian: bool },
}

/// How many bytes one pixel occupies in a format.
pub open spec fn bytes_per_pixel(format: VideoFormat) -> int {
    match format {
        VideoFormat::Rgb => 3,
        VideoFormat::Gray16Le => 2,
        VideoFormat::Gray16Be => 2,
    }
}

/// Bytes per frame for a format and geometry, or `None` when the frame
/// would not be addressable.
pub fn unit_size(format: VideoFormat, width: usize, height: usize) -> (r: Option<usize>)
    ensures
        (r matches Some(sz) ==> sz == width * height * bytes_per_pixel(format)),
        (r is None ==> width * height * bytes_per_pixel(format) > usize::MAX),
{
    proof {
        assert(width * height * bytes_per_pixel(format) >= width * height) by (nonlinear_arith)
            requires
                bytes_per_pixel(format) >= 1,
                width * height >= 0,
        ;
    }
    let Some(count) = width.checked_mul(height) else {
        return None;
    };
    let bpp: usize = match format {
        VideoFormat::Rgb => 3,
        VideoFormat::Gray16Le => 2,
        VideoFormat::Gray16Be => 2,
    };
    count.checked_mul(bpp)
}

/// Which conversion a negotiated pad pair calls for: depth in, RGB out
/// runs the colorizer; RGB in, depth out runs the decolorizer; the byte
/// order comes from whichever side carries depth. A pair that carries the
/// same kind on both sides belongs to passthrough, not to a conversion.
pub fn transform_op(sink: VideoFormat, src: VideoFormat) -> (r: Option<TransformOp>)
    ensures
        r == match (sink, src) {
            (VideoFormat::Gray16Le, VideoFormat::Rgb) => Some(
                (TransformOp::Colorize { big_endian: false }),
            ),
            (VideoFormat::Gray16Be, VideoFormat::Rgb) => Some(
                (TransformOp::Colorize { big_endian: true }),
            ),
            (VideoFormat::Rgb, VideoFormat::Gray16Le) => Some(
                (TransformOp::Decolorize { big_endian: false }),
            ),
            (VideoFormat::Rgb, VideoFormat::Gray16Be) => Some(
                (TransformOp::Decolorize { big_endian: true }),
            ),
            _ => None,
        },
{
    match (sink, src) {
        (VideoFormat::Gray16Le, VideoFormat::Rgb) => Some(
            TransformOp::Colorize { big_endian: false },
        ),
        (VideoFormat::Gray16Be, VideoFormat::Rgb) => Some(
            TransformOp::Colorize { big_endian: true },
        ),
        (VideoFormat::Rgb, VideoFormat::Gray16Le) => Some(
            TransformOp::Decolorize { big_endian: false },
        ),
        (VideoFormat::Rgb, VideoFormat::Gray16Be) => Some(
            TransformOp::Decolorize { big_endian: true },
        ),
        _ => None,
    }
}

/// Law: depth 0 ("no return") stands for the saturated maximum disparity:
/// it sits at the very top of the ramp, position 1529, the same position
/// as the nearest clamped depth.
pub proof fn lemma_depth_zero_max_disparity(min_depth: int, max_depth: int)
    requires
        1 <= min_depth,
        min_depth < max_depth,
    ensures
        dnormal_of_depth(0, min_depth, max_depth) == 1529,
        dnormal_of_depth(0, min_depth, max_depth) == dnormal_of_depth(
            min_depth,
            min_depth,
            max_depth,
        ),
{
    let k = min_depth * (max_depth - min_depth);
    assert(k > 0) by (nonlinear_arith)
        requires
            k == min_depth * (max_depth - min_depth),
            min_depth >= 1,
            max_depth - min_depth >= 1,
    ;
    assert(1529 * min_depth * (max_depth - min_depth) == k * 1529) by (nonlinear_arith)
        requires
            k == min_depth * (max_depth - min_depth),
    ;
    vstd::arithmetic::div_mod::lemma_div_multiples_vanish(1529, k);
}

/// Law: across the whole ramp no raw channel value ever exceeds 255, so
/// the 8-bit mask can only wrap the red channel's descending limb, where
/// the raw value runs negative: at position 256 raw red is -1 and the
/// stored byte is 255 — a wraparound, where a saturating clamp would have
/// stored 0.
pub proof fn lemma_mask_wraparound()
    ensures
        red_raw(256) == -1,
        red_of(256) == 255,
        forall|n: int|
            0 <= n <= 1529 ==> #[trigger] red_raw(n) <= 255 && green_raw(n) <= 255 && blue_raw(n)
                <= 255 && green_raw(n) >= 0 && blue_raw(n) >= 0,
{
}

/// Every depth sample normalizes onto the ramp: its position lies in
/// [0, 1529].
pub proof fn lemma_dnormal_bounds(d: int, min_depth: int, max_depth: int)
    requires
        1 <= min_depth,
        min_depth <= max_depth,
    ensures
        0 <= dnormal_of_depth(d, min_depth, max_depth) <= 1529,
{
    if min_depth < max_depth {
        let e = effective_depth(d, min_depth, max_depth);
        let num = 1529 * min_depth * (max_depth - e);
        let den = e * (max_depth - min_depth);
        assert(den >= 1 && 0 <= num && num <= 1529 * den) by (nonlinear_arith)
            requires
                num == 1529 * min_depth * (max_depth - e),
                den == e * (max_depth - min_depth),
                1 <= min_depth <= e <= max_depth,
                min_depth < max_depth,
        ;
        assert(0 <= num / den <= 1529) by (nonlinear_arith)
            requires
                den >= 1,
                0 <= num,
                num <= 1529 * den,
        ;
    }
}

/// Law: the inverse ramp recovers the normalized scalar to within one
/// normalization step, wherever the inverse is defined: on the two bright
/// limbs at the ends of the palette. The dim middle of the ramp
/// (positions 511 to 1019) falls below the 255 brightness threshold and
/// decodes to 0, and the very top position 1529 decodes as the bottom of
/// the red limb; both are excluded.
pub proof fn lemma_colormap_roundtrip(n: int)
    requires
        0 <= n <= 1529,
        n <= 510 || (1020 <= n && n <= 1528),
    ensures
        ({
            let back = dnormal_of_rgb(red_of(n), green_of(n), blue_of(n));
            n - 1 <= back <= n
        }),
{
    if 256 <= n && n <= 510 {
        assert((255 - n) % 256 == 511 - n) by {
            vstd::arithmetic::div_mod::lemma_fundamental_div_mod_converse_mod(
                255 - n,
                256,
                -1,
                511 - n,
            );
        };
    }
}

/// Law: the codec round-trips to within one normalization step. For any
/// depth sample whose ramp position falls on an invertible limb of the
/// palette, the color that `colorize` writes decodes under `decolorize`'s
/// depth recovery to a position at most one step below the original — the
/// quantization bound of the 1530-step normalization.
pub proof fn lemma_pixel_roundtrip(d: int, min_depth: int, max_depth: int)
    requires
        1 <= min_depth,
        min_depth <= max_depth,
        ({
            let n = dnormal_of_depth(d, min_depth, max_depth);
            n <= 510 || (1020 <= n && n <= 1528)
        }),
    ensures
        ({
            let n = dnormal_of_depth(d, min_depth, max_depth);
            let back = dnormal_of_rgb(red_of(n), green_of(n), blue_of(n));
            n - 1 <= back <= n
        }),
{
    lemma_dnormal_bounds(d, min_depth, max_depth);
    lemma_colormap_roundtrip(dnormal_of_depth(d, min_depth, max_depth));
}

/// Read-only codec configuration: the depth clamp window and the worker
/// hint (0 = use all available hardware parallelism).
pub struct Settings {
    pub threads: u32,
    pub min_depth: u16,
    pub max_depth: u16,
}

impl Settings {
    /// A sane clamp window: nonzero minimum, ordered bounds.
    pub open spec fn wf(&self) -> bool {
        1 <= self.min_depth && self.min_depth <= self.max_depth
    }
}

impl Default for Settings {
    /// The defaults: automatic worker width, widest possible clamp window.
    fn default() -> (r: Self)
        ensures
            r.threads == 0,
            r.min_depth == 1,
            r.max_depth == u16::MAX,
            r.wf(),
    {
        Settings { threads: 0, min_depth: 1, max_depth: u16::MAX }
    }
}

/// The depth colorizer / decolorizer. The clamp window is snapshotted from
/// the settings at the start of each call, so a conversion in flight never
/// sees a mixed configuration.
pub struct DColorizer {
    pub settings: Settings,
}

impl DColorizer {
    pub open spec fn wf(&self) -> bool {
        self.settings.wf()
    }

    /// A codec over the given clamp window; a window whose minimum is zero
    /// or exceeds its maximum is a configuration error and is rejected.
    pub fn new(threads: u32, min_depth: u16, max_depth: u16) -> (r: Option<DColorizer>)
        ensures
            r.is_some() <==> (1 <= min_depth && min_depth <= max_depth),
            r.is_some() ==> r.unwrap().settings == (Settings { threads, min_depth, max_depth }),
    {
        if 1 <= min_depth && min_depth <= max_depth {
            Some(DColorizer { settings: Settings { threads, min_depth, max_depth } })
        } else {
            None
        }
    }

    /// A codec with the default settings.
    pub fn new_default() -> (r: DColorizer)
        ensures
            r.wf(),
            r.settings.threads == 0,
            r.settings.min_depth == 1,
            r.settings.max_depth == u16::MAX,
    {
        DColorizer { settings: Settings { threads: 0, min_depth: 1, max_depth: u16::MAX } }
    }

    /// Maps a packed 16-bit depth buffer onto a packed RGB buffer, pixel
    /// by pixel in parallel. Every one of the `width * height` pixels is
    /// transformed, and pixel `i` of the output depends only on pixel `i`
    /// of the input. Matching buffer lengths are the caller's contract.
    pub fn colorize(
        &self,
        width: usize,
        height: usize,
        from: &Vec<u8>,
        to: &mut Vec<u8>,
        big_endian: bool,
    )
        requires
            self.wf(),
            from@.len() == width * height * 2,
            old(to)@.len() == width * height * 3,
        ensures
            final(to)@.len() == width * height * 3,
            forall|i: int|
                0 <= i < width * height ==> colorized_pixel_ok(
                    from@,
                    final(to)@,
                    i,
                    big_endian,
                    self.settings.min_depth as int,
                    self.settings.max_depth as int,
                ),
    {
        let min_depth = self.settings.min_depth;
        let max_depth = self.settings.max_depth;
        colorize_pixels_par(from, to, big_endian, min_depth, max_depth);
    }

    /// Maps a packed RGB buffer back onto a packed 16-bit depth buffer,
    /// pixel by pixel in parallel: the approximate inverse of `colorize`.
    /// Same per-pixel independence and length contract.
    pub fn decolorize(
        &self,
        width: usize,
        height: usize,
        from: &Vec<u8>,
        to: &mut Vec<u8>,
        big_endian: bool,
    )
        requires
            self.wf(),
            from@.len() == width * height * 3,
            old(to)@.len() == width * height * 2,
        ensures
            final(to)@.len() == width * height * 2,
            forall|i: int|
                0 <= i < width * height ==> decolorized_pixel_ok(
                    from@,
                    final(to)@,
                    i,
                    big_endian,
                    self.settings.min_depth as int,
                    self.settings.max_depth as int,
                ),
    {
        let min_depth = self.settings.min_depth;
        let max_depth = self.settings.max_depth;
        decolorize_pixels_par(from, to, big_endian, min_depth, max_depth);
    }

    /// Length-checked entry to `colorize`: a mismatched or truncated
    /// buffer is rejected outright — no pixel is touched — rather than
    /// partially processed.
    pub fn colorize_checked(
        &self,
        width: usize,
        height: usize,
        from: &Vec<u8>,
        to: &mut Vec<u8>,
        big_endian: bool,
    ) -> (ok: bool)
        requires
            self.wf(),
        ensures
            ok <==> (from@.len() == width * height * 2 && old(to)@.len() == width * height * 3),
            !ok ==> final(to)@ == old(to)@,
            ok ==> final(to)@.len() == width * height * 3,
            ok ==> forall|i: int|
                0 <= i < width * height ==> colorized_pixel_ok(
                    from@,
                    final(to)@,
                    i,
                    big_endian,
                    self.settings.min_depth as int,
                    self.settings.max_depth as int,
                ),
    {
        let from_len = from.len();
        let to_len = to.len();
        let Some(count) = width.checked_mul(height) else {
            return false;
        };
        let Some(len_from) = count.checked_mul(2) else {
            return false;
        };
        let Some(len_to) = count.checked_mul(3) else {
            return false;
        };
        if from_len != len_from || to_len != len_to {
            return false;
        }
        self.colorize(width, height, from, to, big_endian);
        true
    }

    /// Length-checked entry to `decolorize`, rejecting bad buffer lengths
    /// the same way.
    pub fn decolorize_checked(
        &self,
        width: usize,
        height: usize,
        from: &Vec<u8>,
        to: &mut Vec<u8>,
        big_endian: bool,
    ) -> (ok: bool)
        requires
            self.wf(),
        ensures
            ok <==> (from@.len() == width * height * 3 && old(to)@.len() == width * height * 2),
            !ok ==> final(to)@ == old(to)@,
            ok ==> final(to)@.len() == width * height * 2,
            ok ==> forall|i: int|
                0 <= i < width * height ==> decolorized_pixel_ok(
                    from@,
                    final(to)@,
                    i,
                    big_endian,
                    self.settings.min_depth as int,
                    self.settings.max_depth as int,
                ),
    {
        let from_len = from.len();
        let to_len = to.len();
        let Some(count) = width.checked_mul(height) else {
            return false;
        };
        let Some(len_from) = count.checked_mul(3) else {
            return false;
        };
        let Some(len_to) = count.checked_mul(2) else {
            return false;
        };
        if from_len != len_from || to_len != len_to {
            return false;
        }
        self.decolorize(width, height, from, to, big_endian);
        true
    }
}

} // verus!
