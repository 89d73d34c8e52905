//! The unrolled-kernel building blocks every sparse kernel shares: the
//! preload phase, the kernel body, and the loop prologue and epilogue
//! around it.

use vstd::prelude::*;

pub mod nanokernel;
pub mod nanokernel_end;
pub mod nanokernel_start;
pub mod preload;

pub use nanokernel::Generator as KernelGenerator;
pub use nanokernel_end::Generator as PostkernelGenerator;
pub use nanokernel_start::Generator as PrekernelGenerator;
pub use preload::Generator as PreloadGenerator;

verus! {

/// Traversal direction over the matrix rows.
#[derive(Clone, Copy, PartialEq, Eq, Structural, Debug)]
pub enum Direction {
    Forward,
    Backward,
}

/// How many times the generated loop body runs: a fixed count, or the row
/// count divided by the row-block size.
#[derive(Clone, Copy, PartialEq, Eq, Structural, Debug)]
pub enum IterationType {
    StaticIter { iter: u8 },
    DynamicIter { rowblock_size: u8, inner_iter: u8 },
}

} // verus!
