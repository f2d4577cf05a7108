//! The header extension of a block, in each of its wire versions.

use vstd::prelude::*;

verus! {

/// A 32-byte hash.
pub type H256 = [u8; 32];

/// What a header extension says of the block's commitments.
#[derive(Debug, PartialEq, Eq)]
pub struct KateCommitment {
    /// Number of rows of the data matrix.
    pub rows: u16,
    /// Number of columns of the data matrix.
    pub cols: u16,
    /// Root of the block's data.
    pub data_root: H256,
    /// The rows' commitments, one after the other in row order.
    pub commitment: Vec<u8>,
}

impl Clone for KateCommitment {
    fn clone(&self) -> (copy: KateCommitment)
        ensures
            copy.rows == self.rows,
            copy.cols == self.cols,
            copy.data_root == self.data_root,
            copy.commitment@ == self.commitment@,
    {
        KateCommitment {
            rows: self.rows,
            cols: self.cols,
            data_root: self.data_root,
            commitment: self.commitment.clone(),
        }
    }
}

/// A header extension: one variant for each version of the wire format.
#[derive(Debug, PartialEq, Eq)]
pub enum HeaderExtension {
    V1(KateCommitment),
    V2(KateCommitment),
}

impl Clone for HeaderExtension {
    fn clone(&self) -> (copy: HeaderExtension)
        ensures
            copy is V1 == self is V1,
            copy.kate().rows == self.kate().rows,
            copy.kate().cols == self.kate().cols,
            copy.kate().data_root == self.kate().data_root,
            copy.kate().commitment@ == self.kate().commitment@,
    {
        match self {
            HeaderExtension::V1(kate) => HeaderExtension::V1(kate.clone()),
            HeaderExtension::V2(kate) => HeaderExtension::V2(kate.clone()),
        }
    }
}

impl HeaderExtension {
    /// The commitment record that the extension carries, whatever its version.
    pub open spec fn kate(self) -> KateCommitment {
        match self {
            HeaderExtension::V1(kate) => kate,
            HeaderExtension::V2(kate) => kate,
        }
    }
}

/// Reads row count, column count, data root and commitment bytes out of a header
/// extension of any version.
pub fn extract_kate(extension: &HeaderExtension) -> (kate: (u16, u16, H256, Vec<u8>))
    ensures
        kate.0 == extension.kate().rows,
        kate.1 == extension.kate().cols,
        kate.2 == extension.kate().data_root,
        kate.3@ == extension.kate().commitment@,
{
    match extension {
        HeaderExtension::V1(kate) => (
            kate.rows,
            kate.cols,
            kate.data_root,
            kate.commitment.clone(),
        ),
        HeaderExtension::V2(kate) => (
            kate.rows,
            kate.cols,
            kate.data_root,
            kate.commitment.clone(),
        ),
    }
}

} // verus!
