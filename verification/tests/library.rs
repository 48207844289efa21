use citro_3d::color::{scene_palette, C2D_Color32};
use citro_3d::matrix::{FVec, Matrix4Bits, MatrixToC3D, Mtx, Vector4Bits, VecToC3D};
use citro_3d::texenv::{
    scene_tex_env_stages, TexEnv, C3D_Alpha, C3D_Both, C3D_RGB, C3D_TexEnvFunc, C3D_TexEnvInit,
    C3D_TexEnvSrc, GPU_ADD, GPU_CONSTANT, GPU_FRAGMENT_PRIMARY_COLOR, GPU_FRAGMENT_SECONDARY_COLOR,
    GPU_MODULATE, GPU_PREVIOUS, GPU_PRIMARY_COLOR, GPU_TEVSOURCES, GPU_TEXTURE0, GPU_TEXTURE1,
};
use citro_3d::transfer::{
    display_transfer_flags, GX_TRANSFER_FLIP_VERT, GX_TRANSFER_FMT_RGB565, GX_TRANSFER_FMT_RGB8,
    GX_TRANSFER_FMT_RGBA8, GX_TRANSFER_IN_FORMAT, GX_TRANSFER_OUT_FORMAT, GX_TRANSFER_OUT_TILED,
    GX_TRANSFER_RAW_COPY, GX_TRANSFER_SCALE_NO, GX_TRANSFER_SCALE_XY, GX_TRANSFER_SCALING,
};
use citro_3d::uniforms::{
    write_scene_matrices, FVUnifMtx4x4, UniformBank, C3D_FVUNIF_COUNT, GPU_GEOMETRY_SHADER, GPU_VERTEX_SHADER,
};

fn zero_env() -> TexEnv {
    TexEnv {
        src_rgb: 0x123,
        src_alpha: 0x456,
        op_all: 7,
        func_rgb: 8,
        func_alpha: 9,
        color: 10,
        scale_rgb: 1,
        scale_alpha: 2,
    }
}

fn reset_env() -> TexEnv {
    TexEnv {
        src_rgb: 0x0F,
        src_alpha: 0x0F,
        op_all: 0,
        func_rgb: 0,
        func_alpha: 0,
        color: 0xFFFF_FFFF,
        scale_rgb: 0,
        scale_alpha: 0,
    }
}

fn v(base: u32) -> FVec {
    FVec { w: base, z: base + 1, y: base + 2, x: base + 3 }
}

fn sample_mtx(base: u32) -> Mtx {
    Mtx { r0: v(base), r1: v(base + 10), r2: v(base + 20), r3: v(base + 30) }
}

#[test]
fn color32_packs_red_lowest() {
    assert_eq!(C2D_Color32(0x01, 0x02, 0x03, 0x04), 0x0403_0201);
    assert_eq!(C2D_Color32(0xFF, 0, 0, 0), 0x0000_00FF);
    assert_eq!(C2D_Color32(0, 0, 0, 0xFF), 0xFF00_0000);
    assert_eq!(C2D_Color32(0, 0, 0, 0), 0);
}

#[test]
fn color32_channels_read_back() {
    for &(r, g, b, a) in &[(0x12u8, 0x34u8, 0x56u8, 0x78u8), (0xFF, 0, 0xFF, 0), (1, 255, 128, 7)] {
        let c = C2D_Color32(r, g, b, a);
        assert_eq!((c & 0xFF) as u8, r);
        assert_eq!(((c >> 8) & 0xFF) as u8, g);
        assert_eq!(((c >> 16) & 0xFF) as u8, b);
        assert_eq!((c >> 24) as u8, a);
    }
}

#[test]
fn color32_distinct_channels_give_distinct_colors() {
    assert_ne!(C2D_Color32(1, 2, 3, 4), C2D_Color32(2, 1, 3, 4));
    assert_ne!(C2D_Color32(0, 0, 0, 1), C2D_Color32(0, 0, 1, 0));
}

#[test]
fn palette_values() {
    let p = scene_palette();
    assert_eq!(p.white, 0xFFFF_FFFF);
    assert_eq!(p.green, 0xFF00_FF00);
    assert_eq!(p.black, 0xFF00_0000);
    assert_eq!(p.clear, 0x68B0_D8FF);
}

#[test]
fn transfer_field_shifts() {
    assert_eq!(GX_TRANSFER_FLIP_VERT(1), 1);
    assert_eq!(GX_TRANSFER_OUT_TILED(1), 2);
    assert_eq!(GX_TRANSFER_RAW_COPY(1), 8);
    assert_eq!(GX_TRANSFER_IN_FORMAT(GX_TRANSFER_FMT_RGB565), 0x200);
    assert_eq!(GX_TRANSFER_OUT_FORMAT(GX_TRANSFER_FMT_RGB8), 0x1000);
    assert_eq!(GX_TRANSFER_SCALING(GX_TRANSFER_SCALE_XY), 0x0200_0000);
}

#[test]
fn transfer_shifts_drop_high_bits() {
    assert_eq!(GX_TRANSFER_SCALING(0x1FF), 0xFF00_0000);
    assert_eq!(GX_TRANSFER_OUT_TILED(0x8000_0001), 2);
    assert_eq!(GX_TRANSFER_FLIP_VERT(0xDEAD_BEEF), 0xDEAD_BEEF);
}

#[test]
fn top_screen_transfer_flags() {
    let f = display_transfer_flags(
        0,
        0,
        0,
        GX_TRANSFER_FMT_RGBA8,
        GX_TRANSFER_FMT_RGB8,
        GX_TRANSFER_SCALE_NO,
    );
    assert_eq!(f, 0x1000);
}

#[test]
fn transfer_flags_fields_read_back() {
    let f = display_transfer_flags(1, 0, 1, 5, 3, 2);
    assert_eq!(f & 1, 1);
    assert_eq!((f >> 1) & 1, 0);
    assert_eq!((f >> 3) & 1, 1);
    assert_eq!((f >> 8) & 7, 5);
    assert_eq!((f >> 12) & 7, 3);
    assert_eq!((f >> 24) & 3, 2);
    assert_eq!(f, 1 + 8 + 0x500 + 0x3000 + 0x0200_0000);
}

#[test]
fn tev_sources_packing() {
    assert_eq!(GPU_TEVSOURCES(GPU_PREVIOUS, 0, 0), 0x0F);
    assert_eq!(
        GPU_TEVSOURCES(GPU_FRAGMENT_PRIMARY_COLOR, GPU_FRAGMENT_SECONDARY_COLOR, GPU_PRIMARY_COLOR),
        0x21
    );
    assert_eq!(GPU_TEVSOURCES(GPU_TEXTURE0, GPU_TEXTURE1, GPU_CONSTANT), 0xE43);
    assert_eq!(GPU_TEVSOURCES(0xF, 0xF, 0xF), 0xFFF);
    assert_eq!(GPU_TEVSOURCES(0, 0, 0xFF), 0xFF00);
}

#[test]
fn tev_sources_fields_read_back() {
    let p = GPU_TEVSOURCES(0x3, 0xA, 0x6);
    assert_eq!(p & 0xF, 0x3);
    assert_eq!((p >> 4) & 0xF, 0xA);
    assert_eq!((p >> 8) & 0xF, 0x6);
    assert_eq!(p, 0x3 + 16 * 0xA + 256 * 0x6);
}

#[test]
fn tex_env_init_resets_every_field() {
    let mut e = zero_env();
    C3D_TexEnvInit(&mut e);
    assert_eq!(e, reset_env());
    let mut f = reset_env();
    C3D_TexEnvInit(&mut f);
    assert_eq!(f, reset_env());
}

#[test]
fn tex_env_src_selects_halves() {
    let mut e = zero_env();
    C3D_TexEnvSrc(&mut e, C3D_RGB, GPU_TEXTURE0, Some(GPU_CONSTANT), None);
    assert_eq!(e.src_rgb, 0x0E3);
    assert_eq!(e.src_alpha, 0x456);

    let mut e = zero_env();
    C3D_TexEnvSrc(&mut e, C3D_Alpha, GPU_TEXTURE0, None, Some(GPU_CONSTANT));
    assert_eq!(e.src_rgb, 0x123);
    assert_eq!(e.src_alpha, 0xE03);

    let mut e = zero_env();
    C3D_TexEnvSrc(&mut e, C3D_Both, GPU_TEXTURE1, None, None);
    assert_eq!(e.src_rgb, 0x004);
    assert_eq!(e.src_alpha, 0x004);
    assert_eq!(e.func_rgb, 8);
    assert_eq!(e.color, 10);
}

#[test]
fn tex_env_update_without_halves_changes_nothing() {
    let mut e = zero_env();
    C3D_TexEnvSrc(&mut e, 0, GPU_TEXTURE0, None, None);
    C3D_TexEnvFunc(&mut e, 4, GPU_ADD);
    assert_eq!(e, zero_env());
}

#[test]
fn tex_env_func_selects_halves() {
    let mut e = zero_env();
    C3D_TexEnvFunc(&mut e, C3D_RGB, GPU_ADD);
    assert_eq!((e.func_rgb, e.func_alpha), (2, 9));
    let mut e = zero_env();
    C3D_TexEnvFunc(&mut e, C3D_Alpha, GPU_MODULATE);
    assert_eq!((e.func_rgb, e.func_alpha), (8, 1));
    let mut e = zero_env();
    C3D_TexEnvFunc(&mut e, C3D_Both, GPU_ADD);
    assert_eq!((e.func_rgb, e.func_alpha), (2, 2));
    assert_eq!(e.src_rgb, 0x123);
}

#[test]
fn tex_env_both_is_rgb_then_alpha() {
    let mut both = zero_env();
    C3D_TexEnvSrc(&mut both, C3D_Both, GPU_TEXTURE0, Some(GPU_TEXTURE1), None);
    C3D_TexEnvFunc(&mut both, C3D_Both, GPU_MODULATE);
    let mut split = zero_env();
    C3D_TexEnvSrc(&mut split, C3D_RGB, GPU_TEXTURE0, Some(GPU_TEXTURE1), None);
    C3D_TexEnvSrc(&mut split, C3D_Alpha, GPU_TEXTURE0, Some(GPU_TEXTURE1), None);
    C3D_TexEnvFunc(&mut split, C3D_RGB, GPU_MODULATE);
    C3D_TexEnvFunc(&mut split, C3D_Alpha, GPU_MODULATE);
    assert_eq!(both, split);
}

#[test]
fn tex_env_sources_and_func_commute() {
    let mut a = zero_env();
    C3D_TexEnvSrc(&mut a, C3D_RGB, GPU_TEXTURE0, None, None);
    C3D_TexEnvFunc(&mut a, C3D_Alpha, GPU_ADD);
    let mut b = zero_env();
    C3D_TexEnvFunc(&mut b, C3D_Alpha, GPU_ADD);
    C3D_TexEnvSrc(&mut b, C3D_RGB, GPU_TEXTURE0, None, None);
    assert_eq!(a, b);
}

#[test]
fn scene_stages_blend_then_pass_through() {
    let stages = scene_tex_env_stages();
    assert_eq!(stages.len(), 6);
    assert_eq!(
        stages[0],
        TexEnv {
            src_rgb: 0x21,
            src_alpha: 0x21,
            op_all: 0,
            func_rgb: 2,
            func_alpha: 2,
            color: 0xFFFF_FFFF,
            scale_rgb: 0,
            scale_alpha: 0,
        }
    );
    for s in &stages[1..] {
        assert_eq!(*s, reset_env());
    }
}

#[test]
fn vec_to_c3d_keeps_named_components() {
    let r = VecToC3D(Vector4Bits { x: 1, y: 2, z: 3, w: 4 });
    assert_eq!(r, FVec { w: 4, z: 3, y: 2, x: 1 });
}

#[test]
fn matrix_row_gathers_column_entries() {
    let m = Matrix4Bits {
        x: Vector4Bits { x: 1, y: 2, z: 3, w: 4 },
        y: Vector4Bits { x: 5, y: 6, z: 7, w: 8 },
        z: Vector4Bits { x: 9, y: 10, z: 11, w: 12 },
        w: Vector4Bits { x: 13, y: 14, z: 15, w: 16 },
    };
    assert_eq!(m.row(0), Vector4Bits { x: 1, y: 5, z: 9, w: 13 });
    assert_eq!(m.row(3), Vector4Bits { x: 4, y: 8, z: 12, w: 16 });
    let c = MatrixToC3D(m);
    assert_eq!(c.r0, FVec { w: 13, z: 9, y: 5, x: 1 });
    assert_eq!(c.r1, FVec { w: 14, z: 10, y: 6, x: 2 });
    assert_eq!(c.r2, FVec { w: 15, z: 11, y: 7, x: 3 });
    assert_eq!(c.r3, FVec { w: 16, z: 12, y: 8, x: 4 });
}

#[test]
fn identity_matrix_converts_to_identity_rows() {
    let one = 1.0f32.to_bits();
    let m = Matrix4Bits {
        x: Vector4Bits { x: one, y: 0, z: 0, w: 0 },
        y: Vector4Bits { x: 0, y: one, z: 0, w: 0 },
        z: Vector4Bits { x: 0, y: 0, z: one, w: 0 },
        w: Vector4Bits { x: 0, y: 0, z: 0, w: one },
    };
    let c = MatrixToC3D(m);
    assert_eq!(c.r0, FVec { w: 0, z: 0, y: 0, x: one });
    assert_eq!(c.r3, FVec { w: one, z: 0, y: 0, x: 0 });
    assert_eq!(f32::from_bits(c.r1.y), 1.0f32);
}

#[test]
fn uniform_bank_starts_clean() {
    let b = UniformBank::new();
    for s in [GPU_VERTEX_SHADER, GPU_GEOMETRY_SHADER] {
        for i in 0..C3D_FVUNIF_COUNT {
            assert_eq!(b.get(s, i), FVec { w: 0, z: 0, y: 0, x: 0 });
            assert!(!b.dirty(s, i));
        }
    }
}

#[test]
fn uniform_matrix_write_reads_back() {
    let mut b = UniformBank::new();
    let m = sample_mtx(100);
    FVUnifMtx4x4(&mut b, GPU_VERTEX_SHADER, 4, m);
    assert_eq!(b.get(GPU_VERTEX_SHADER, 4), m.r0);
    assert_eq!(b.get(GPU_VERTEX_SHADER, 5), m.r1);
    assert_eq!(b.get(GPU_VERTEX_SHADER, 6), m.r2);
    assert_eq!(b.get(GPU_VERTEX_SHADER, 7), m.r3);
    let zero = FVec { w: 0, z: 0, y: 0, x: 0 };
    assert_eq!(b.get(GPU_VERTEX_SHADER, 3), zero);
    assert_eq!(b.get(GPU_VERTEX_SHADER, 8), zero);
    assert_eq!(b.get(GPU_GEOMETRY_SHADER, 4), zero);
}

#[test]
fn uniform_matrix_write_marks_second_register() {
    let mut b = UniformBank::new();
    FVUnifMtx4x4(&mut b, GPU_GEOMETRY_SHADER, 0, sample_mtx(1));
    for i in 0..C3D_FVUNIF_COUNT {
        assert_eq!(b.dirty(GPU_GEOMETRY_SHADER, i), i == 1);
        assert!(!b.dirty(GPU_VERTEX_SHADER, i));
    }
}

#[test]
fn uniform_matrix_write_at_last_place() {
    let mut b = UniformBank::new();
    FVUnifMtx4x4(&mut b, GPU_GEOMETRY_SHADER, 92, sample_mtx(7));
    assert_eq!(b.get(GPU_GEOMETRY_SHADER, 95), sample_mtx(7).r3);
    assert!(b.dirty(GPU_GEOMETRY_SHADER, 93));
}

#[test]
fn uniform_last_write_wins() {
    let mut once = UniformBank::new();
    FVUnifMtx4x4(&mut once, GPU_VERTEX_SHADER, 10, sample_mtx(500));
    let mut twice = UniformBank::new();
    FVUnifMtx4x4(&mut twice, GPU_VERTEX_SHADER, 10, sample_mtx(1));
    FVUnifMtx4x4(&mut twice, GPU_VERTEX_SHADER, 10, sample_mtx(500));
    for s in [GPU_VERTEX_SHADER, GPU_GEOMETRY_SHADER] {
        for i in 0..C3D_FVUNIF_COUNT {
            assert_eq!(once.get(s, i), twice.get(s, i));
            assert_eq!(once.dirty(s, i), twice.dirty(s, i));
        }
    }
}

#[test]
fn scene_matrices_model_view_wins_on_overlap() {
    let proj = Matrix4Bits {
        x: Vector4Bits { x: 1, y: 2, z: 3, w: 4 },
        y: Vector4Bits { x: 5, y: 6, z: 7, w: 8 },
        z: Vector4Bits { x: 9, y: 10, z: 11, w: 12 },
        w: Vector4Bits { x: 13, y: 14, z: 15, w: 16 },
    };
    let mv = sample_mtx(1000);
    let mut b = UniformBank::new();
    let rows = write_scene_matrices(&mut b, 0, 2, proj, mv);
    assert_eq!(rows, MatrixToC3D(proj));
    assert_eq!(b.get(GPU_VERTEX_SHADER, 0), rows.r0);
    assert_eq!(b.get(GPU_VERTEX_SHADER, 1), rows.r1);
    assert_eq!(b.get(GPU_VERTEX_SHADER, 2), mv.r0);
    assert_eq!(b.get(GPU_VERTEX_SHADER, 5), mv.r3);
    assert!(b.dirty(GPU_VERTEX_SHADER, 1));
    assert!(b.dirty(GPU_VERTEX_SHADER, 3));
    assert!(!b.dirty(GPU_VERTEX_SHADER, 2));
    assert!(!b.dirty(GPU_GEOMETRY_SHADER, 1));
}
