//! Float vectors and matrices as the GPU driver lays them out, and their conversion from
//! the column-major matrices of the maths library. Every float is held as its IEEE-754
//! bit pattern: the conversions only move values, so bit patterns carry them exactly.
use vstd::prelude::*;

verus! {

/// A four-component vector of the maths library: components x, y, z, w.
#[derive(Clone, Copy, Debug, PartialEq, Eq, Structural)]
pub struct Vector4Bits {
    pub x: u32,
    pub y: u32,
    pub z: u32,
    pub w: u32,
}

impl Vector4Bits {
    /// Component `i` in the order x, y, z, w.
    pub open spec fn get(self, i: int) -> u32 {
        if i == 0 {
            self.x
        } else if i == 1 {
            self.y
        } else if i == 2 {
            self.z
        } else {
            self.w
        }
    }
}

/// A 4×4 matrix of the maths library, stored by columns: `x` is column 0, `w` column 3.
#[derive(Clone, Copy, Debug, PartialEq, Eq, Structural)]
pub struct Matrix4Bits {
    pub x: Vector4Bits,
    pub y: Vector4Bits,
    pub z: Vector4Bits,
    pub w: Vector4Bits,
}

impl Matrix4Bits {
    /// Column `j` (0 to 3).
    pub open spec fn col(self, j: int) -> Vector4Bits {
        if j == 0 {
            self.x
        } else if j == 1 {
            self.y
        } else if j == 2 {
            self.z
        } else {
            self.w
        }
    }

    /// The entry in row `i` and column `j`.
    pub open spec fn entry(self, i: int, j: int) -> u32 {
        self.col(j).get(i)
    }

    /// Row `i`: entry `i` of each column, in column order.
    pub open spec fn spec_row(self, i: int) -> Vector4Bits {
        Vector4Bits { x: self.x.get(i), y: self.y.get(i), z: self.z.get(i), w: self.w.get(i) }
    }

    /// Row `i` of the matrix.
    pub fn row(&self, i: usize) -> (r: Vector4Bits)
        requires
            i < 4,
        ensures
            r == self.spec_row(i as int),
            i == 0 ==> r == (Vector4Bits { x: self.x.x, y: self.y.x, z: self.z.x, w: self.w.x }),
            i == 1 ==> r == (Vector4Bits { x: self.x.y, y: self.y.y, z: self.z.y, w: self.w.y }),
            i == 2 ==> r == (Vector4Bits { x: self.x.z, y: self.y.z, z: self.z.z, w: self.w.z }),
            i == 3 ==> r == (Vector4Bits { x: self.x.w, y: self.y.w, z: self.z.w, w: self.w.w }),
    {
        if i == 0 {
            Vector4Bits { x: self.x.x, y: self.y.x, z: self.z.x, w: self.w.x }
        } else if i == 1 {
            Vector4Bits { x: self.x.y, y: self.y.y, z: self.z.y, w: self.w.y }
        } else if i == 2 {
            Vector4Bits { x: self.x.z, y: self.y.z, z: self.z.z, w: self.w.z }
        } else {
            Vector4Bits { x: self.x.w, y: self.y.w, z: self.z.w, w: self.w.w }
        }
    }
}

/// A four-component vector as the GPU driver stores it: the words `c[0..4]` are the
/// components w, z, y, x in that order.
#[derive(Clone, Copy, Debug, PartialEq, Eq, Structural)]
pub struct FVec {
    pub w: u32,
    pub z: u32,
    pub y: u32,
    pub x: u32,
}

impl FVec {
    /// The word at memory position `i` (0 to 3): w, z, y, x.
    pub open spec fn c(self, i: int) -> u32 {
        if i == 0 {
            self.w
        } else if i == 1 {
            self.z
        } else if i == 2 {
            self.y
        } else {
            self.x
        }
    }
}

/// A 4×4 matrix as the GPU driver stores it: four rows.
#[derive(Clone, Copy, Debug, PartialEq, Eq, Structural)]
pub struct Mtx {
    pub r0: FVec,
    pub r1: FVec,
    pub r2: FVec,
    pub r3: FVec,
}

impl Mtx {
    /// Row `i` (0 to 3).
    pub open spec fn row(self, i: int) -> FVec {
        if i == 0 {
            self.r0
        } else if i == 1 {
            self.r1
        } else if i == 2 {
            self.r2
        } else {
            self.r3
        }
    }
}

/// The driver's form of a vector: word 0 holds w, word 1 z, word 2 y, word 3 x.
pub open spec fn spec_vec_to_c3d(v: Vector4Bits) -> FVec {
    FVec { w: v.w, z: v.z, y: v.y, x: v.x }
}

/// Converts a vector to the driver's layout, which stores the components in reverse
/// order: each named component keeps its value.
pub fn VecToC3D(v: Vector4Bits) -> (r: FVec)
    ensures
        r == spec_vec_to_c3d(v),
        r.c(0) == v.w && r.c(1) == v.z && r.c(2) == v.y && r.c(3) == v.x,
        r.x == v.x && r.y == v.y && r.z == v.z && r.w == v.w,
{
    FVec { w: v.w, z: v.z, y: v.y, x: v.x }
}

/// Converts a column-major matrix to the driver's row form: row `i` of the result is row
/// `i` of `m` in the driver's vector layout.
pub fn MatrixToC3D(m: Matrix4Bits) -> (r: Mtx)
    ensures
        forall|i: int| 0 <= i < 4 ==> #[trigger] r.row(i) == spec_vec_to_c3d(m.spec_row(i)),
        r.r0 == (FVec { w: m.w.x, z: m.z.x, y: m.y.x, x: m.x.x }),
        r.r1 == (FVec { w: m.w.y, z: m.z.y, y: m.y.y, x: m.x.y }),
        r.r2 == (FVec { w: m.w.z, z: m.z.z, y: m.y.z, x: m.x.z }),
        r.r3 == (FVec { w: m.w.w, z: m.z.w, y: m.y.w, x: m.x.w }),
{
    Mtx { r0: VecToC3D(m.row(0)), r1: VecToC3D(m.row(1)), r2: VecToC3D(m.row(2)), r3: VecToC3D(m.row(3)) }
}

/// In the converted matrix, word `k` of row `i` is the entry of `m` in row `i` and column
/// `3 - k`: the conversion transposes the storage and reverses each stored row.
pub proof fn lemma_matrix_to_c3d_entries(m: Matrix4Bits, r: Mtx)
    requires
        forall|i: int| 0 <= i < 4 ==> #[trigger] r.row(i) == spec_vec_to_c3d(m.spec_row(i)),
    ensures
        forall|i: int, k: int| 0 <= i < 4 && 0 <= k < 4 ==> #[trigger] r.row(i).c(k) == m.entry(i, 3 - k),
{
    assert forall|i: int, k: int| 0 <= i < 4 && 0 <= k < 4 implies #[trigger] r.row(i).c(k) == m.entry(i, 3 - k) by {
        assert(r.row(i) == spec_vec_to_c3d(m.spec_row(i)));
    }
}

} // verus!
