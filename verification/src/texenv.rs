//! Texture-combiner (TexEnv) stages of the PICA200 fragment pipeline.
use vstd::prelude::*;

verus! {

/// A combiner input source (`GPU_TEVSRC`).
#[allow(non_camel_case_types)]
pub type GPU_TEVSRC = u32;

/// A combiner operation (`GPU_COMBINEFUNC`).
#[allow(non_camel_case_types)]
pub type GPU_COMBINEFUNC = u32;

/// Which halves of a stage an update touches (`C3D_TexEnvMode`): a bit set.
#[allow(non_camel_case_types)]
pub type C3D_TexEnvMode = u32;

pub const GPU_PRIMARY_COLOR: GPU_TEVSRC = 0x00;
pub const GPU_FRAGMENT_PRIMARY_COLOR: GPU_TEVSRC = 0x01;
pub const GPU_FRAGMENT_SECONDARY_COLOR: GPU_TEVSRC = 0x02;
pub const GPU_TEXTURE0: GPU_TEVSRC = 0x03;
pub const GPU_TEXTURE1: GPU_TEVSRC = 0x04;
pub const GPU_TEXTURE2: GPU_TEVSRC = 0x05;
pub const GPU_TEXTURE3: GPU_TEVSRC = 0x06;
pub const GPU_PREVIOUS_BUFFER: GPU_TEVSRC = 0x0D;
pub const GPU_CONSTANT: GPU_TEVSRC = 0x0E;
pub const GPU_PREVIOUS: GPU_TEVSRC = 0x0F;

pub const GPU_REPLACE: GPU_COMBINEFUNC = 0x00;
pub const GPU_MODULATE: GPU_COMBINEFUNC = 0x01;
pub const GPU_ADD: GPU_COMBINEFUNC = 0x02;
pub const GPU_ADD_SIGNED: GPU_COMBINEFUNC = 0x03;
pub const GPU_INTERPOLATE: GPU_COMBINEFUNC = 0x04;
pub const GPU_SUBTRACT: GPU_COMBINEFUNC = 0x05;
pub const GPU_DOT3_RGB: GPU_COMBINEFUNC = 0x06;
pub const GPU_DOT3_RGBA: GPU_COMBINEFUNC = 0x07;
pub const GPU_MULTIPLY_ADD: GPU_COMBINEFUNC = 0x08;
pub const GPU_ADD_MULTIPLY: GPU_COMBINEFUNC = 0x09;

/// Output scale of a stage (`GPU_TEVSCALE`).
pub const GPU_TEVSCALE_1: u32 = 0x0;
pub const GPU_TEVSCALE_2: u32 = 0x1;
pub const GPU_TEVSCALE_4: u32 = 0x2;

/// The colour (RGB) half of a stage.
pub const C3D_RGB: C3D_TexEnvMode = 1;
/// The alpha half of a stage.
pub const C3D_Alpha: C3D_TexEnvMode = 2;
/// Both halves.
pub const C3D_Both: C3D_TexEnvMode = 3;

/// Number of combiner stages of the GPU.
pub const C3D_TEXENV_COUNT: usize = 6;

/// One combiner stage, field for field as the GPU driver lays it out.
#[derive(Clone, Copy, Debug, PartialEq, Eq, Structural)]
pub struct TexEnv {
    pub src_rgb: u16,
    pub src_alpha: u16,
    pub op_all: u32,
    pub func_rgb: u16,
    pub func_alpha: u16,
    pub color: u32,
    pub scale_rgb: u16,
    pub scale_alpha: u16,
}

/// The three sources of a stage packed in one word: `a` in bits 0.., `b` shifted by 4,
/// `c` shifted by 8 (32-bit shifts, high bits dropped).
pub open spec fn tev_sources(a: u32, b: u32, c: u32) -> u32 {
    a | (b << 4u32) | (c << 8u32)
}

/// Whether an update with `mode` touches the colour half: bit 0 of `mode` is set.
pub open spec fn touches_rgb(mode: u32) -> bool {
    mode % 2 == 1
}

/// Whether an update with `mode` touches the alpha half: bit 1 of `mode` is set.
pub open spec fn touches_alpha(mode: u32) -> bool {
    (mode / 2) % 2 == 1
}

/// A mode selects the colour half exactly when its bit 0 is set, the alpha half exactly
/// when its bit 1 is set, and neither exactly when both bits are clear.
pub proof fn lemma_mode_tests(mode: u32)
    ensures
        (mode & C3D_RGB == C3D_RGB) == touches_rgb(mode),
        (mode & C3D_Alpha == C3D_Alpha) == touches_alpha(mode),
        (mode & C3D_Both == 0) == (!touches_rgb(mode) && !touches_alpha(mode)),
{
    assert((mode & 1u32 == 1u32) == (mode % 2 == 1)) by (bit_vector);
    assert((mode & 2u32 == 2u32) == ((mode / 2) % 2 == 1)) by (bit_vector);
    assert((mode & 3u32 == 0u32) == (mode % 2 != 1 && (mode / 2) % 2 != 1)) by (bit_vector);
}

/// A source left out of an update stands for the primary colour.
pub open spec fn source_or_primary(s: Option<GPU_TEVSRC>) -> GPU_TEVSRC {
    match s {
        Some(v) => v,
        None => GPU_PRIMARY_COLOR,
    }
}

/// The state of a stage just after it is reset: it passes the previous stage's result
/// through unchanged.
pub open spec fn initial_tex_env() -> TexEnv {
    TexEnv {
        src_rgb: tev_sources(GPU_PREVIOUS, 0, 0) as u16,
        src_alpha: tev_sources(GPU_PREVIOUS, 0, 0) as u16,
        op_all: 0,
        func_rgb: GPU_REPLACE as u16,
        func_alpha: GPU_REPLACE as u16,
        color: 0xFFFF_FFFF,
        scale_rgb: GPU_TEVSCALE_1 as u16,
        scale_alpha: GPU_TEVSCALE_1 as u16,
    }
}

/// `env` with the packed sources `param` written into the halves that `mode` selects.
pub open spec fn with_sources(env: TexEnv, mode: u32, param: u16) -> TexEnv {
    TexEnv {
        src_rgb: if touches_rgb(mode) { param } else { env.src_rgb },
        src_alpha: if touches_alpha(mode) { param } else { env.src_alpha },
        ..env
    }
}

/// `env` with the operation `param` written into the halves that `mode` selects.
pub open spec fn with_func(env: TexEnv, mode: u32, param: u16) -> TexEnv {
    TexEnv {
        func_rgb: if touches_rgb(mode) { param } else { env.func_rgb },
        func_alpha: if touches_alpha(mode) { param } else { env.func_alpha },
        ..env
    }
}

/// Packs three combiner sources into the 16-bit source word of a stage.
/// The packed value must fit in 16 bits.
pub fn GPU_TEVSOURCES(a: GPU_TEVSRC, b: GPU_TEVSRC, c: GPU_TEVSRC) -> (r: u16)
    requires
        tev_sources(a, b, c) <= 0xFFFF,
    ensures
        r == tev_sources(a, b, c),
        r as u32 == a | (b << 4u32) | (c << 8u32),
{
    let v: u32 = a | (b << 4u32) | (c << 8u32);
    v as u16
}

/// Resets a stage: sources "previous", operation "replace", constant colour white,
/// scale 1.
pub fn C3D_TexEnvInit(env: &mut TexEnv)
    ensures
        *final(env) == initial_tex_env(),
        final(env).src_rgb == 0x0F && final(env).src_alpha == 0x0F,
        final(env).op_all == 0,
        final(env).func_rgb == GPU_REPLACE && final(env).func_alpha == GPU_REPLACE,
        final(env).color == 0xFFFF_FFFF,
        final(env).scale_rgb == GPU_TEVSCALE_1 && final(env).scale_alpha == GPU_TEVSCALE_1,
{
    assert(tev_sources(GPU_PREVIOUS, 0, 0) == 0x0F) by (bit_vector);
    env.src_rgb = GPU_TEVSOURCES(GPU_PREVIOUS, 0, 0);
    env.src_alpha = env.src_rgb;
    env.op_all = 0;
    env.func_rgb = GPU_REPLACE as u16;
    env.func_alpha = env.func_rgb;
    env.color = 0xFFFF_FFFF;
    env.scale_rgb = GPU_TEVSCALE_1 as u16;
    env.scale_alpha = GPU_TEVSCALE_1 as u16;
}

/// Sets the sources of the halves of a stage that `mode` selects; a missing second or
/// third source is the primary colour. The packed sources must fit in 16 bits.
pub fn C3D_TexEnvSrc(
    env: &mut TexEnv,
    mode: C3D_TexEnvMode,
    s1: GPU_TEVSRC,
    s2: Option<GPU_TEVSRC>,
    s3: Option<GPU_TEVSRC>,
)
    requires
        tev_sources(s1, source_or_primary(s2), source_or_primary(s3)) <= 0xFFFF,
    ensures
        *final(env) == with_sources(
            *old(env),
            mode,
            tev_sources(s1, source_or_primary(s2), source_or_primary(s3)) as u16,
        ),
        touches_rgb(mode) ==> final(env).src_rgb as u32 == s1 | ((match s2 {
            Some(v) => v,
            None => 0u32,
        }) << 4u32) | ((match s3 {
            Some(v) => v,
            None => 0u32,
        }) << 8u32),
        touches_alpha(mode) ==> final(env).src_alpha as u32 == s1 | ((match s2 {
            Some(v) => v,
            None => 0u32,
        }) << 4u32) | ((match s3 {
            Some(v) => v,
            None => 0u32,
        }) << 8u32),
        !touches_rgb(mode) ==> final(env).src_rgb == old(env).src_rgb,
        !touches_alpha(mode) ==> final(env).src_alpha == old(env).src_alpha,
        final(env).op_all == old(env).op_all,
        final(env).func_rgb == old(env).func_rgb,
        final(env).func_alpha == old(env).func_alpha,
        final(env).color == old(env).color,
        final(env).scale_rgb == old(env).scale_rgb,
        final(env).scale_alpha == old(env).scale_alpha,
{
    let s2: GPU_TEVSRC = match s2 {
        Some(v) => v,
        None => GPU_PRIMARY_COLOR,
    };
    let s3: GPU_TEVSRC = match s3 {
        Some(v) => v,
        None => GPU_PRIMARY_COLOR,
    };
    let param: u16 = GPU_TEVSOURCES(s1, s2, s3);
    proof {
        lemma_mode_tests(mode);
    }
    if mode & C3D_RGB == C3D_RGB {
        env.src_rgb = param;
    }
    if mode & C3D_Alpha == C3D_Alpha {
        env.src_alpha = param;
    }
}

/// Sets the operation of the halves of a stage that `mode` selects. Where a half is
/// written, the operation must fit in 16 bits.
pub fn C3D_TexEnvFunc(env: &mut TexEnv, mode: C3D_TexEnvMode, param: GPU_COMBINEFUNC)
    requires
        touches_rgb(mode) || touches_alpha(mode) ==> param <= 0xFFFF,
    ensures
        *final(env) == with_func(*old(env), mode, param as u16),
        touches_rgb(mode) ==> final(env).func_rgb == param,
        touches_alpha(mode) ==> final(env).func_alpha == param,
        !touches_rgb(mode) ==> final(env).func_rgb == old(env).func_rgb,
        !touches_alpha(mode) ==> final(env).func_alpha == old(env).func_alpha,
        final(env).src_rgb == old(env).src_rgb,
        final(env).src_alpha == old(env).src_alpha,
        final(env).op_all == old(env).op_all,
        final(env).color == old(env).color,
        final(env).scale_rgb == old(env).scale_rgb,
        final(env).scale_alpha == old(env).scale_alpha,
{
    proof {
        lemma_mode_tests(mode);
    }
    if mode & C3D_RGB == C3D_RGB {
        env.func_rgb = param as u16;
    }
    if mode & C3D_Alpha == C3D_Alpha {
        env.func_alpha = param as u16;
    }
}

/// The stage that adds the fragment's secondary colour to its primary colour, in both
/// halves.
pub open spec fn blend_stage() -> TexEnv {
    with_func(
        with_sources(
            initial_tex_env(),
            C3D_Both,
            tev_sources(
                GPU_FRAGMENT_PRIMARY_COLOR,
                GPU_FRAGMENT_SECONDARY_COLOR,
                GPU_PRIMARY_COLOR,
            ) as u16,
        ),
        C3D_Both,
        GPU_ADD as u16,
    )
}

/// The combiner stages that the scene installs when it binds: stage 0 blends the
/// fragment's primary and secondary colours by addition, the other five are reset.
pub fn scene_tex_env_stages() -> (stages: Vec<TexEnv>)
    ensures
        stages@ == seq![
            blend_stage(),
            initial_tex_env(),
            initial_tex_env(),
            initial_tex_env(),
            initial_tex_env(),
            initial_tex_env(),
        ],
{
    let mut env = TexEnv {
        src_rgb: 0,
        src_alpha: 0,
        op_all: 0,
        func_rgb: 0,
        func_alpha: 0,
        color: 0,
        scale_rgb: 0,
        scale_alpha: 0,
    };
    C3D_TexEnvInit(&mut env);
    assert(tev_sources(GPU_FRAGMENT_PRIMARY_COLOR, GPU_FRAGMENT_SECONDARY_COLOR, GPU_PRIMARY_COLOR)
        == 0x21) by (bit_vector);
    C3D_TexEnvSrc(&mut env, C3D_Both, GPU_FRAGMENT_PRIMARY_COLOR, Some(GPU_FRAGMENT_SECONDARY_COLOR), None);
    C3D_TexEnvFunc(&mut env, C3D_Both, GPU_ADD);
    let mut stages: Vec<TexEnv> = Vec::new();
    stages.push(env);
    let mut i: usize = 1;
    while i < C3D_TEXENV_COUNT
        invariant
            1 <= i <= C3D_TEXENV_COUNT,
            stages@.len() == i,
            stages@[0] == blend_stage(),
            forall|k: int| 1 <= k < i ==> stages@[k] == initial_tex_env(),
        decreases C3D_TEXENV_COUNT - i,
    {
        let mut reset = env;
        C3D_TexEnvInit(&mut reset);
        stages.push(reset);
        i = i + 1;
    }
    assert(stages@ =~= seq![
        blend_stage(),
        initial_tex_env(),
        initial_tex_env(),
        initial_tex_env(),
        initial_tex_env(),
        initial_tex_env(),
    ]);
    stages
}

/// Sources below 16 occupy disjoint 4-bit fields of the packed word: the word is
/// `a + 16·b + 256·c`, fits in 12 bits, and each source is read back from its field.
pub proof fn lemma_tev_sources_fields(a: u32, b: u32, c: u32)
    requires
        a < 16,
        b < 16,
        c < 16,
    ensures
        tev_sources(a, b, c) == a + 16 * b + 256 * c,
        tev_sources(a, b, c) < 0x1000,
        tev_sources(a, b, c) & 0xF == a,
        (tev_sources(a, b, c) >> 4u32) & 0xF == b,
        (tev_sources(a, b, c) >> 8u32) & 0xF == c,
{
    assert({
        let v = a | (b << 4u32) | (c << 8u32);
        &&& v == a + 16 * b + 256 * c
        &&& v < 0x1000
        &&& v & 0xF == a
        &&& (v >> 4u32) & 0xF == b
        &&& (v >> 8u32) & 0xF == c
    }) by (bit_vector)
        requires
            a < 16,
            b < 16,
            c < 16,
    ;
}

/// Updating both halves of a stage is the same as updating the colour half and then the
/// alpha half, for sources and for operations alike.
pub proof fn lemma_both_is_rgb_then_alpha(env: TexEnv, p: u16)
    ensures
        with_sources(env, C3D_Both, p) == with_sources(with_sources(env, C3D_RGB, p), C3D_Alpha, p),
        with_func(env, C3D_Both, p) == with_func(with_func(env, C3D_RGB, p), C3D_Alpha, p),
{
}

/// An update whose mode selects neither half leaves the stage as it was.
pub proof fn lemma_update_without_halves(env: TexEnv, mode: u32, p: u16)
    requires
        mode & C3D_Both == 0,
    ensures
        with_sources(env, mode, p) == env,
        with_func(env, mode, p) == env,
{
    lemma_mode_tests(mode);
}

/// Setting sources and setting operations touch different fields, so they commute.
pub proof fn lemma_sources_and_func_commute(env: TexEnv, m1: u32, p: u16, m2: u32, q: u16)
    ensures
        with_func(with_sources(env, m1, p), m2, q) == with_sources(with_func(env, m2, q), m1, p),
{
}

/// The blending stage in numbers: sources 0x21 (primary colour, then secondary colour,
/// then primary colour) and operation "add" in both halves, constant colour white.
pub proof fn lemma_blend_stage_value()
    ensures
        blend_stage() == (TexEnv {
            src_rgb: 0x21,
            src_alpha: 0x21,
            op_all: 0,
            func_rgb: 2,
            func_alpha: 2,
            color: 0xFFFF_FFFF,
            scale_rgb: 0,
            scale_alpha: 0,
        }),
{
    assert(tev_sources(GPU_FRAGMENT_PRIMARY_COLOR, GPU_FRAGMENT_SECONDARY_COLOR, GPU_PRIMARY_COLOR)
        == 0x21) by (bit_vector);
    assert(tev_sources(GPU_PREVIOUS, 0, 0) == 0x0F) by (bit_vector);
}

/// The modes by name: `C3D_RGB` selects only the colour half, `C3D_Alpha` only the alpha
/// half, `C3D_Both` both.
pub proof fn lemma_named_modes()
    ensures
        touches_rgb(C3D_RGB) && !touches_alpha(C3D_RGB),
        !touches_rgb(C3D_Alpha) && touches_alpha(C3D_Alpha),
        touches_rgb(C3D_Both) && touches_alpha(C3D_Both),
{
}

/// An operation update stores the operation unchanged in each selected half, keeps the
/// unselected half, and touches no other field.
pub proof fn lemma_func_written_exactly(env: TexEnv, mode: u32, p: u16)
    ensures
        touches_rgb(mode) ==> with_func(env, mode, p).func_rgb == p,
        touches_alpha(mode) ==> with_func(env, mode, p).func_alpha == p,
        !touches_rgb(mode) ==> with_func(env, mode, p).func_rgb == env.func_rgb,
        !touches_alpha(mode) ==> with_func(env, mode, p).func_alpha == env.func_alpha,
        with_func(env, mode, p).src_rgb == env.src_rgb,
        with_func(env, mode, p).src_alpha == env.src_alpha,
        with_func(env, mode, p).op_all == env.op_all,
        with_func(env, mode, p).color == env.color,
        with_func(env, mode, p).scale_rgb == env.scale_rgb,
        with_func(env, mode, p).scale_alpha == env.scale_alpha,
{
}

/// A source update stores the packed word unchanged in each selected half, keeps the
/// unselected half, and touches no other field.
pub proof fn lemma_sources_written_exactly(env: TexEnv, mode: u32, p: u16)
    ensures
        touches_rgb(mode) ==> with_sources(env, mode, p).src_rgb == p,
        touches_alpha(mode) ==> with_sources(env, mode, p).src_alpha == p,
        !touches_rgb(mode) ==> with_sources(env, mode, p).src_rgb == env.src_rgb,
        !touches_alpha(mode) ==> with_sources(env, mode, p).src_alpha == env.src_alpha,
        with_sources(env, mode, p).func_rgb == env.func_rgb,
        with_sources(env, mode, p).func_alpha == env.func_alpha,
        with_sources(env, mode, p).op_all == env.op_all,
        with_sources(env, mode, p).color == env.color,
        with_sources(env, mode, p).scale_rgb == env.scale_rgb,
        with_sources(env, mode, p).scale_alpha == env.scale_alpha,
{
}

/// A source that is given is used as it is; a missing one is the primary colour (0).
pub proof fn lemma_given_source_used(v: GPU_TEVSRC)
    ensures
        source_or_primary(Some(v)) == v,
        source_or_primary(None) == 0,
{
}

/// After a source update of a selected half with real sources (each below 16), the three
/// sources are read back from that half, in order: the first from bits 0..4, the second
/// from bits 4..8 and the third from bits 8..12, a missing one reading as 0.
pub proof fn lemma_sources_read_back(
    env: TexEnv,
    mode: u32,
    s1: GPU_TEVSRC,
    s2: Option<GPU_TEVSRC>,
    s3: Option<GPU_TEVSRC>,
)
    requires
        s1 < 16,
        s2 matches Some(v) ==> v < 16,
        s3 matches Some(v) ==> v < 16,
    ensures
        ({
            let e = with_sources(env, mode, tev_sources(s1, source_or_primary(s2), source_or_primary(s3)) as u16);
            let want2: u32 = match s2 {
                Some(v) => v,
                None => 0u32,
            };
            let want3: u32 = match s3 {
                Some(v) => v,
                None => 0u32,
            };
            &&& touches_rgb(mode) ==> {
                &&& (e.src_rgb as u32) & 0xF == s1
                &&& ((e.src_rgb as u32) >> 4u32) & 0xF == want2
                &&& ((e.src_rgb as u32) >> 8u32) & 0xF == want3
                &&& (e.src_rgb as u32) >> 12u32 == 0
            }
            &&& touches_alpha(mode) ==> {
                &&& (e.src_alpha as u32) & 0xF == s1
                &&& ((e.src_alpha as u32) >> 4u32) & 0xF == want2
                &&& ((e.src_alpha as u32) >> 8u32) & 0xF == want3
                &&& (e.src_alpha as u32) >> 12u32 == 0
            }
        }),
{
    let b: u32 = match s2 {
        Some(v) => v,
        None => 0u32,
    };
    let c: u32 = match s3 {
        Some(v) => v,
        None => 0u32,
    };
    lemma_tev_sources_fields(s1, b, c);
    let w: u32 = tev_sources(s1, b, c);
    assert(w < 0x1000);
    assert((w as u16) as u32 == w);
    assert(w >> 12u32 == 0) by (bit_vector)
        requires
            w < 0x1000,
    ;
}

/// A reset stage in numbers: both halves take the previous stage's result (source word
/// 0x0F) and replace with it, scale 1, constant colour opaque white, no operands selected.
pub proof fn lemma_initial_tex_env_value()
    ensures
        initial_tex_env() == (TexEnv {
            src_rgb: 0x0F,
            src_alpha: 0x0F,
            op_all: 0,
            func_rgb: 0,
            func_alpha: 0,
            color: 0xFFFF_FFFF,
            scale_rgb: 0,
            scale_alpha: 0,
        }),
{
    assert(tev_sources(GPU_PREVIOUS, 0, 0) == 0x0F) by (bit_vector);
}

} // verus!
