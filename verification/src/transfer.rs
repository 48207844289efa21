//! Flags of a display transfer (the copy of a rendered frame buffer to the screen).
use vstd::prelude::*;

verus! {

/// Pixel formats of a display transfer (`GX_TRANSFER_FORMAT`).
pub const GX_TRANSFER_FMT_RGBA8: u32 = 0;
pub const GX_TRANSFER_FMT_RGB8: u32 = 1;
pub const GX_TRANSFER_FMT_RGB565: u32 = 2;
pub const GX_TRANSFER_FMT_RGB5A1: u32 = 3;
pub const GX_TRANSFER_FMT_RGBA4: u32 = 4;

/// Anti-aliasing downscales of a display transfer (`GX_TRANSFER_SCALE`).
pub const GX_TRANSFER_SCALE_NO: u32 = 0;
pub const GX_TRANSFER_SCALE_X: u32 = 1;
pub const GX_TRANSFER_SCALE_XY: u32 = 2;

/// The vertical-flip flag (bit 0).
pub fn GX_TRANSFER_FLIP_VERT(x: u32) -> (r: u32)
    ensures
        r == x << 0u32,
        r == x,
{
    assert(x << 0u32 == x) by (bit_vector);
    x << 0u32
}

/// The tiled-output flag (bit 1).
pub fn GX_TRANSFER_OUT_TILED(x: u32) -> (r: u32)
    ensures
        r == x << 1u32,
        r == (x as int * 2) % 0x1_0000_0000,
{
    assert(x << 1u32 == (x as int * 2) % 0x1_0000_0000) by (bit_vector);
    x << 1u32
}

/// The raw-copy flag (bit 3).
pub fn GX_TRANSFER_RAW_COPY(x: u32) -> (r: u32)
    ensures
        r == x << 3u32,
        r == (x as int * 8) % 0x1_0000_0000,
{
    assert(x << 3u32 == (x as int * 8) % 0x1_0000_0000) by (bit_vector);
    x << 3u32
}

/// The input pixel format (from bit 8).
pub fn GX_TRANSFER_IN_FORMAT(x: u32) -> (r: u32)
    ensures
        r == x << 8u32,
        r == (x as int * 0x100) % 0x1_0000_0000,
{
    assert(x << 8u32 == (x as int * 0x100) % 0x1_0000_0000) by (bit_vector);
    x << 8u32
}

/// The output pixel format (from bit 12).
pub fn GX_TRANSFER_OUT_FORMAT(x: u32) -> (r: u32)
    ensures
        r == x << 12u32,
        r == (x as int * 0x1000) % 0x1_0000_0000,
{
    assert(x << 12u32 == (x as int * 0x1000) % 0x1_0000_0000) by (bit_vector);
    x << 12u32
}

/// The downscale mode (from bit 24).
pub fn GX_TRANSFER_SCALING(x: u32) -> (r: u32)
    ensures
        r == x << 24u32,
        r == (x as int * 0x100_0000) % 0x1_0000_0000,
{
    assert(x << 24u32 == (x as int * 0x100_0000) % 0x1_0000_0000) by (bit_vector);
    x << 24u32
}

/// The flags word: the union of the six fields.
pub open spec fn transfer_flags(flip: u32, tiled: u32, raw: u32, in_fmt: u32, out_fmt: u32, scaling: u32) -> u32 {
    flip | (tiled << 1u32) | (raw << 3u32) | (in_fmt << 8u32) | (out_fmt << 12u32) | (scaling << 24u32)
}

/// Combines the six fields of a display transfer into its flags word.
pub fn display_transfer_flags(flip: u32, tiled: u32, raw: u32, in_fmt: u32, out_fmt: u32, scaling: u32) -> (r: u32)
    ensures
        r == transfer_flags(flip, tiled, raw, in_fmt, out_fmt, scaling),
        r == flip | (tiled << 1u32) | (raw << 3u32) | (in_fmt << 8u32) | (out_fmt << 12u32) | (scaling
            << 24u32),
{
    GX_TRANSFER_FLIP_VERT(flip) | GX_TRANSFER_OUT_TILED(tiled) | GX_TRANSFER_RAW_COPY(raw)
        | GX_TRANSFER_IN_FORMAT(in_fmt) | GX_TRANSFER_OUT_FORMAT(out_fmt) | GX_TRANSFER_SCALING(scaling)
}

/// Fields within their widths (one bit for the three flags, three bits for each format,
/// two bits for the scaling) do not overlap: each is read back from the word.
pub proof fn lemma_transfer_flags_fields(flip: u32, tiled: u32, raw: u32, in_fmt: u32, out_fmt: u32, scaling: u32)
    requires
        flip < 2,
        tiled < 2,
        raw < 2,
        in_fmt < 8,
        out_fmt < 8,
        scaling < 4,
    ensures
        ({
            let f = transfer_flags(flip, tiled, raw, in_fmt, out_fmt, scaling);
            &&& f & 1 == flip
            &&& (f >> 1u32) & 1 == tiled
            &&& (f >> 3u32) & 1 == raw
            &&& (f >> 8u32) & 7 == in_fmt
            &&& (f >> 12u32) & 7 == out_fmt
            &&& (f >> 24u32) & 3 == scaling
            &&& f == flip + 2 * tiled + 8 * raw + 0x100 * in_fmt + 0x1000 * out_fmt + 0x100_0000 * scaling
        }),
{
    assert({
        let f = flip | (tiled << 1u32) | (raw << 3u32) | (in_fmt << 8u32) | (out_fmt << 12u32) | (scaling << 24u32);
        &&& f & 1 == flip
        &&& (f >> 1u32) & 1 == tiled
        &&& (f >> 3u32) & 1 == raw
        &&& (f >> 8u32) & 7 == in_fmt
        &&& (f >> 12u32) & 7 == out_fmt
        &&& (f >> 24u32) & 3 == scaling
        &&& f == flip + 2 * tiled + 8 * raw + 0x100 * in_fmt + 0x1000 * out_fmt + 0x100_0000 * scaling
    }) by (bit_vector)
        requires
            flip < 2,
            tiled < 2,
            raw < 2,
            in_fmt < 8,
            out_fmt < 8,
            scaling < 4,
    ;
}

} // verus!
