use vstd::prelude::*;

verus! {

/// The value of a colour packed as `0xAABBGGRR`: red in the lowest byte, alpha in the highest.
pub open spec fn color32_value(r: u8, g: u8, b: u8, a: u8) -> int {
    r + 0x100 * g + 0x1_0000 * b + 0x100_0000 * a
}

/// Packs four 8-bit channels into one 32-bit colour word, red in bits 0..8, green in
/// bits 8..16, blue in bits 16..24 and alpha in bits 24..32.
pub fn C2D_Color32(r: u8, g: u8, b: u8, a: u8) -> (c: u32)
    ensures
        c == color32_value(r, g, b, a),
        c == (r as u32) | ((g as u32) << 8) | ((b as u32) << 16) | ((a as u32) << 24),
{
    let c = (r as u32) | ((g as u32) << 8) | ((b as u32) << 16) | ((a as u32) << 24);
    assert(c == r + 0x100 * g + 0x1_0000 * b + 0x100_0000 * a) by (bit_vector)
        requires
            c == (r as u32) | ((g as u32) << 8) | ((b as u32) << 16) | ((a as u32) << 24),
    ;
    c
}

/// Packing is undone by shifting and masking: the byte at bit offset 8·k of a packed
/// colour is its k-th channel (red, green, blue, alpha).
pub proof fn lemma_color32_channels(r: u8, g: u8, b: u8, a: u8)
    ensures
        ({
            let c = color32_value(r, g, b, a) as u32;
            &&& c & 0xff == r
            &&& (c >> 8u32) & 0xff == g
            &&& (c >> 16u32) & 0xff == b
            &&& c >> 24u32 == a
        }),
{
    let c: u32 = ((r as u32) | ((g as u32) << 8) | ((b as u32) << 16) | ((a as u32) << 24)) as u32;
    assert(c == r + 0x100 * g + 0x1_0000 * b + 0x100_0000 * a) by (bit_vector)
        requires
            c == (r as u32) | ((g as u32) << 8) | ((b as u32) << 16) | ((a as u32) << 24),
    ;
    assert({
        &&& c & 0xff == r
        &&& (c >> 8u32) & 0xff == g
        &&& (c >> 16u32) & 0xff == b
        &&& c >> 24u32 == a
    }) by (bit_vector)
        requires
            c == (r as u32) | ((g as u32) << 8) | ((b as u32) << 16) | ((a as u32) << 24),
    ;
}

/// Two colours are equal only when all four of their channels are equal.
pub proof fn lemma_color32_injective(r1: u8, g1: u8, b1: u8, a1: u8, r2: u8, g2: u8, b2: u8, a2: u8)
    requires
        color32_value(r1, g1, b1, a1) == color32_value(r2, g2, b2, a2),
    ensures
        r1 == r2 && g1 == g2 && b1 == b2 && a1 == a2,
{
    lemma_color32_channels(r1, g1, b1, a1);
    lemma_color32_channels(r2, g2, b2, a2);
}

/// The colours the renderer keeps at hand: opaque white, green and black, and the
/// translucent peach it clears the screen with.
#[derive(Clone, Copy, Debug, PartialEq, Eq, Structural)]
pub struct ScenePalette {
    pub white: u32,
    pub green: u32,
    pub black: u32,
    pub clear: u32,
}

/// The renderer's colours, packed with `C2D_Color32`.
pub fn scene_palette() -> (p: ScenePalette)
    ensures
        p.white == color32_value(0xFF, 0xFF, 0xFF, 0xFF),
        p.green == color32_value(0x00, 0xFF, 0x00, 0xFF),
        p.black == color32_value(0x00, 0x00, 0x00, 0xFF),
        p.clear == color32_value(0xFF, 0xD8, 0xB0, 0x68),
        p.white == 0xFFFF_FFFF,
        p.green == 0xFF00_FF00,
        p.black == 0xFF00_0000,
        p.clear == 0x68B0_D8FF,
{
    ScenePalette {
        white: C2D_Color32(0xFF, 0xFF, 0xFF, 0xFF),
        green: C2D_Color32(0x00, 0xFF, 0x00, 0xFF),
        black: C2D_Color32(0x00, 0x00, 0x00, 0xFF),
        clear: C2D_Color32(0xFF, 0xD8, 0xB0, 0x68),
    }
}

} // verus!
