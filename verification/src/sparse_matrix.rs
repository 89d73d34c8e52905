//! Sparse-matrix storage-format descriptors consumed by the kernel
//! generators.

use vstd::prelude::*;

verus! {

/// The storage layout a generated kernel reads; currently the ELL format
/// (fixed-width per-row column/value arrays) with its handling options.
#[derive(Clone, Copy, PartialEq, Eq, Structural, Debug)]
pub enum SparseMatrixFormat {
    ELL(ELLInfo),
}

/// ELL-format handling options: slots 0 to 14 hold the lower triangle,
/// slot 15 the diagonal, slots 16 to 31 the upper triangle.
#[derive(Clone, Copy, PartialEq, Eq, Structural, Debug)]
pub struct ELLInfo {
    pub diag: DiagonalStatus,
    pub lu: LUStatus,
    pub ordering: GridPointOrdering,
}

impl ELLInfo {
    pub fn new(diag: DiagonalStatus, lu: LUStatus, ordering: GridPointOrdering) -> (r: Self)
        ensures
            r == (ELLInfo { diag, lu, ordering }),
    {
        ELLInfo { diag, lu, ordering }
    }
}

/// How the diagonal is stored relative to the triangles.
#[derive(Clone, Copy, PartialEq, Eq, Structural, Debug)]
pub enum DiagonalStatus {
    Default,
    Excluded,
    ExcludedReciprocal,
}

/// Whether both triangles are stored or one is excluded.
#[derive(Clone, Copy, PartialEq, Eq, Structural, Debug)]
pub enum LUStatus {
    Default,
    Excluded,
}

/// The traversal order of grid points.
#[derive(Clone, Copy, PartialEq, Eq, Structural, Debug)]
pub enum GridPointOrdering {
    Default,
    WaveFront,
}

} // verus!
