//! The float-uniform registers of the two shader units and their dirty flags.
use vstd::prelude::*;
use crate::matrix::{spec_vec_to_c3d, FVec, Matrix4Bits, MatrixToC3D, Mtx};

verus! {

/// A shader unit (`GPU_SHADER_TYPE`).
#[allow(non_camel_case_types)]
pub type GPU_SHADER_TYPE = u32;

pub const GPU_VERTEX_SHADER: GPU_SHADER_TYPE = 0;
pub const GPU_GEOMETRY_SHADER: GPU_SHADER_TYPE = 1;

/// Number of shader units.
pub const SHADER_UNIT_COUNT: usize = 2;

/// Number of float-uniform registers of each shader unit.
pub const C3D_FVUNIF_COUNT: usize = 96;

/// The all-zero vector.
pub open spec fn zero_fvec() -> FVec {
    FVec { w: 0, z: 0, y: 0, x: 0 }
}

/// Whether `(shader, i)` names a register.
pub open spec fn valid_register(shader: int, i: int) -> bool {
    0 <= shader < SHADER_UNIT_COUNT && 0 <= i < C3D_FVUNIF_COUNT
}

/// The float-uniform registers of both shader units, each with the flag that marks it as
/// changed since it was last uploaded.
pub struct UniformBank {
    values: Vec<FVec>,
    dirty: Vec<bool>,
}

impl UniformBank {
    /// Both shader units have all their registers.
    pub closed spec fn wf(&self) -> bool {
        &&& self.values@.len() == SHADER_UNIT_COUNT * C3D_FVUNIF_COUNT
        &&& self.dirty@.len() == SHADER_UNIT_COUNT * C3D_FVUNIF_COUNT
    }

    /// Register `i` of shader unit `shader`.
    pub closed spec fn value(&self, shader: int, i: int) -> FVec {
        self.values@[shader * C3D_FVUNIF_COUNT + i]
    }

    /// Whether register `i` of shader unit `shader` is marked as changed.
    pub closed spec fn is_dirty(&self, shader: int, i: int) -> bool {
        self.dirty@[shader * C3D_FVUNIF_COUNT + i]
    }

    /// All registers zero and none marked.
    pub fn new() -> (bank: Self)
        ensures
            bank.wf(),
            forall|s: int, i: int| valid_register(s, i) ==> #[trigger] bank.value(s, i) == (FVec { w: 0, z: 0, y: 0, x: 0 }),
            forall|s: int, i: int| valid_register(s, i) ==> !#[trigger] bank.is_dirty(s, i),
    {
        let mut values: Vec<FVec> = Vec::new();
        let mut dirty: Vec<bool> = Vec::new();
        let n: usize = SHADER_UNIT_COUNT * C3D_FVUNIF_COUNT;
        let mut k: usize = 0;
        while k < n
            invariant
                n == SHADER_UNIT_COUNT * C3D_FVUNIF_COUNT,
                k <= n,
                values@.len() == k,
                dirty@.len() == k,
                forall|j: int| 0 <= j < k ==> values@[j] == zero_fvec(),
                forall|j: int| 0 <= j < k ==> !dirty@[j],
            decreases n - k,
        {
            values.push(FVec { w: 0, z: 0, y: 0, x: 0 });
            dirty.push(false);
            k = k + 1;
        }
        let bank = UniformBank { values, dirty };
        assert forall|s: int, i: int| valid_register(s, i) implies #[trigger] bank.value(s, i) == zero_fvec() by {
            assert(0 <= s * C3D_FVUNIF_COUNT + i < n);
        }
        assert forall|s: int, i: int| valid_register(s, i) implies !#[trigger] bank.is_dirty(s, i) by {
            assert(0 <= s * C3D_FVUNIF_COUNT + i < n);
        }
        bank
    }

    /// Register `i` of shader unit `shader`.
    pub fn get(&self, shader: GPU_SHADER_TYPE, i: usize) -> (v: FVec)
        requires
            self.wf(),
            valid_register(shader as int, i as int),
        ensures
            v == self.value(shader as int, i as int),
    {
        self.values[shader as usize * C3D_FVUNIF_COUNT + i]
    }

    /// Whether register `i` of shader unit `shader` is marked as changed.
    pub fn dirty(&self, shader: GPU_SHADER_TYPE, i: usize) -> (d: bool)
        requires
            self.wf(),
            valid_register(shader as int, i as int),
        ensures
            d == self.is_dirty(shader as int, i as int),
    {
        self.dirty[shader as usize * C3D_FVUNIF_COUNT + i]
    }
}

/// The register contents after a matrix is written at `id` of `shader`: registers
/// `id..id + 4` of that unit hold the rows, the others keep `old`.
pub open spec fn after_matrix_write(old_value: FVec, s: int, i: int, shader: int, id: int, m: Mtx) -> FVec {
    if s == shader && id <= i < id + 4 {
        m.row(i - id)
    } else {
        old_value
    }
}

/// Writes the four rows of `m` into registers `id..id + 4` of shader unit `shader` and
/// marks register `id + 1` as changed; nothing else changes. The unit must exist and the
/// four registers must lie inside it.
pub fn FVUnifMtx4x4(bank: &mut UniformBank, shader: GPU_SHADER_TYPE, id: i8, m: Mtx)
    requires
        old(bank).wf(),
        shader < SHADER_UNIT_COUNT,
        matrix_place_ok(id),
    ensures
        final(bank).wf(),
        forall|s: int, i: int|
            valid_register(s, i) ==> #[trigger] final(bank).value(s, i) == after_matrix_write(
                old(bank).value(s, i),
                s,
                i,
                shader as int,
                id as int,
                m,
            ),
        forall|s: int, i: int|
            valid_register(s, i) ==> #[trigger] final(bank).is_dirty(s, i) == ((s == shader && i == id + 1)
                || old(bank).is_dirty(s, i)),
        final(bank).value(shader as int, id as int) == m.r0,
        final(bank).value(shader as int, id + 1) == m.r1,
        final(bank).value(shader as int, id + 2) == m.r2,
        final(bank).value(shader as int, id + 3) == m.r3,
{
    let shader: usize = shader as usize;
    let id: usize = id as usize;
    let base: usize = shader * C3D_FVUNIF_COUNT;
    let ghost old_values = bank.values@;
    let ghost old_dirty = bank.dirty@;
    let mut i: usize = 0;
    while i < 4
        invariant
            i <= 4,
            base == shader * C3D_FVUNIF_COUNT,
            shader < SHADER_UNIT_COUNT,
            id + 4 <= C3D_FVUNIF_COUNT,
            bank.values@ == old_values,
            bank.dirty@.len() == old_dirty.len(),
            old_dirty.len() == SHADER_UNIT_COUNT * C3D_FVUNIF_COUNT,
            forall|j: int|
                0 <= j < old_dirty.len() ==> #[trigger] bank.dirty@[j] == if i > 0 && j == base + id + 1 {
                    true
                } else {
                    old_dirty[j]
                },
        decreases 4 - i,
    {
        bank.dirty.set(base + id + 1, true);
        i = i + 1;
    }
    let ghost mid_dirty = bank.dirty@;
    assert(forall|j: int|
        0 <= j < old_dirty.len() ==> #[trigger] mid_dirty[j] == (j == base + id + 1 || old_dirty[j]));
    let rows: [FVec; 4] = [m.r0, m.r1, m.r2, m.r3];
    let mut k: usize = 0;
    while k < 4
        invariant
            k <= 4,
            base == shader * C3D_FVUNIF_COUNT,
            shader < SHADER_UNIT_COUNT,
            id + 4 <= C3D_FVUNIF_COUNT,
            rows@ == seq![m.r0, m.r1, m.r2, m.r3],
            bank.dirty@ == mid_dirty,
            mid_dirty.len() == old_dirty.len(),
            old_dirty.len() == SHADER_UNIT_COUNT * C3D_FVUNIF_COUNT,
            bank.values@.len() == old_values.len(),
            old_values.len() == SHADER_UNIT_COUNT * C3D_FVUNIF_COUNT,
            forall|j: int|
                0 <= j < old_values.len() ==> #[trigger] bank.values@[j] == if base + id <= j < base + id + k {
                    m.row(j - base - id)
                } else {
                    old_values[j]
                },
        decreases 4 - k,
    {
        bank.values.set(base + id + k, rows[k]);
        k = k + 1;
    }
    assert forall|s: int, i: int| valid_register(s, i) implies #[trigger] bank.value(s, i)
        == after_matrix_write(old_values[s * C3D_FVUNIF_COUNT + i], s, i, shader as int, id as int, m) by {
        let j = s * C3D_FVUNIF_COUNT + i;
        assert(0 <= j < old_values.len());
        if s == shader {
        } else {
            assert(j < base || j >= base + C3D_FVUNIF_COUNT);
        }
    }
    assert forall|s: int, i: int| valid_register(s, i) implies #[trigger] bank.is_dirty(s, i)
        == ((s == shader && i == id + 1) || old_dirty[s * C3D_FVUNIF_COUNT + i]) by {
        let j = s * C3D_FVUNIF_COUNT + i;
        assert(0 <= j < old_dirty.len());
        assert(mid_dirty[j] == (j == base + id + 1 || old_dirty[j]));
        if s != shader {
            assert(j < base || j >= base + C3D_FVUNIF_COUNT);
        }
    }
}

/// Whether a matrix can be written at register `id`: the four registers `id..id + 4`
/// lie inside a shader unit.
pub open spec fn matrix_place_ok(id: i8) -> bool {
    0 <= id && id + 4 <= C3D_FVUNIF_COUNT
}

/// The uniform writes of one rendered frame: the projection matrix, converted to the
/// driver's layout, at `projection_loc` of the vertex shader, then the model-view matrix at
/// `model_view_loc`. Where the two places overlap, the model-view rows win.
pub fn write_scene_matrices(
    bank: &mut UniformBank,
    projection_loc: i8,
    model_view_loc: i8,
    projection: Matrix4Bits,
    model_view: Mtx,
) -> (projection_rows: Mtx)
    requires
        old(bank).wf(),
        matrix_place_ok(projection_loc),
        matrix_place_ok(model_view_loc),
    ensures
        final(bank).wf(),
        forall|i: int| 0 <= i < 4 ==> #[trigger] projection_rows.row(i) == spec_vec_to_c3d(projection.spec_row(i)),
        forall|s: int, i: int|
            valid_register(s, i) ==> #[trigger] final(bank).value(s, i) == after_matrix_write(
                after_matrix_write(
                    old(bank).value(s, i),
                    s,
                    i,
                    GPU_VERTEX_SHADER as int,
                    projection_loc as int,
                    projection_rows,
                ),
                s,
                i,
                GPU_VERTEX_SHADER as int,
                model_view_loc as int,
                model_view,
            ),
        forall|s: int, i: int|
            valid_register(s, i) ==> #[trigger] final(bank).is_dirty(s, i) == ((s == GPU_VERTEX_SHADER && (
            i == projection_loc + 1 || i == model_view_loc + 1)) || old(bank).is_dirty(s, i)),
{
    let projection_rows = MatrixToC3D(projection);
    FVUnifMtx4x4(bank, GPU_VERTEX_SHADER, projection_loc, projection_rows);
    FVUnifMtx4x4(bank, GPU_VERTEX_SHADER, model_view_loc, model_view);
    projection_rows
}

/// Reading back after a matrix write: register `id + k` of the written unit holds row `k`
/// of the matrix, for each of the four rows.
pub proof fn lemma_matrix_write_read_back(old_value: FVec, shader: int, id: int, m: Mtx, k: int)
    requires
        0 <= k < 4,
    ensures
        after_matrix_write(old_value, shader, id + k, shader, id, m) == m.row(k),
{
}

/// A matrix write leaves every register outside `id..id + 4` of the written unit as it was.
pub proof fn lemma_matrix_write_frame(old_value: FVec, s: int, i: int, shader: int, id: int, m: Mtx)
    requires
        s != shader || i < id || i >= id + 4,
    ensures
        after_matrix_write(old_value, s, i, shader, id, m) == old_value,
{
}

/// Writing two matrices at the same place leaves the registers as the second write alone
/// would: the last write wins.
pub proof fn lemma_matrix_write_last_wins(old_value: FVec, s: int, i: int, shader: int, id: int, m1: Mtx, m2: Mtx)
    ensures
        after_matrix_write(after_matrix_write(old_value, s, i, shader, id, m1), s, i, shader, id, m2)
            == after_matrix_write(old_value, s, i, shader, id, m2),
{
}

} // verus!
