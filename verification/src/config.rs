//! Fixed sizes of the binary layouts.

use vstd::prelude::*;

verus! {

/// Bytes of the claimed value at the start of a cell's content.
pub const CELL_SIZE: usize = 32;

/// Bytes of the opening proof that follows the claimed value.
pub const PROOF_SIZE: usize = 48;

/// Bytes of one cell's content: the claimed value followed by its opening proof.
pub const CELL_WITH_PROOF_SIZE: usize = CELL_SIZE + PROOF_SIZE;

/// Bytes of one row's commitment.
pub const COMMITMENT_SIZE: usize = 48;

} // verus!
