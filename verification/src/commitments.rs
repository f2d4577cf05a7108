//! The per-row commitments of a block, cut out of the header's commitment bytes.

use crate::bytes::copy_chunk;
use crate::config::COMMITMENT_SIZE;
use crate::error::Error;
use vstd::prelude::*;

verus! {

/// The commitment to one row's polynomial.
pub type Commitment = [u8; COMMITMENT_SIZE];

/// The bytes of entry `i` in a run of 48-byte entries.
pub open spec fn entry(blob: Seq<u8>, i: int) -> Seq<u8> {
    blob.subrange(48 * i, 48 * i + 48)
}

/// The entries of a run of bytes that is a whole number of them.
pub open spec fn entries(blob: Seq<u8>) -> Seq<Seq<u8>> {
    Seq::new((blob.len() / 48) as nat, |i: int| entry(blob, i))
}

/// A list of commitments, each as its 48 bytes.
pub open spec fn bytes_of(list: Seq<Commitment>) -> Seq<Seq<u8>> {
    list.map_values(|c: Commitment| c@)
}

/// Cuts `source` into 48-byte commitments, in order. Fails exactly when the length
/// of `source` is not a multiple of 48.
pub fn from_slice(source: &[u8]) -> (cut: Result<Vec<Commitment>, Error>)
    ensures
        cut is Ok <==> source.len() % 48 == 0,
        cut matches Err(e) ==> e == Error::MalformedCommitmentBlob,
        cut matches Ok(list) ==> bytes_of(list@) == entries(source@),
{
    if source.len() % COMMITMENT_SIZE != 0 {
        return Err(Error::MalformedCommitmentBlob);
    }
    let count: usize = source.len() / COMMITMENT_SIZE;
    let mut list: Vec<Commitment> = Vec::new();
    let mut i: usize = 0;
    while i < count
        invariant
            i <= count,
            count * 48 == source.len(),
            list.len() == i,
            forall|j: int| 0 <= j < i ==> (#[trigger] list[j])@ == entry(source@, j),
        decreases count - i,
    {
        let chunk: Commitment = copy_chunk::<COMMITMENT_SIZE>(source, i * COMMITMENT_SIZE);
        list.push(chunk);
        i += 1;
    }
    assert(bytes_of(list@) =~= entries(source@));
    Ok(list)
}

/// The commitments of one block, addressed by row.
#[derive(Debug, PartialEq, Eq)]
pub struct CommitmentIndex {
    rows: Vec<Commitment>,
}

impl View for CommitmentIndex {
    type V = Seq<Seq<u8>>;

    /// The commitments in row order, each as its 48 bytes.
    closed spec fn view(&self) -> Seq<Seq<u8>> {
        bytes_of(self.rows@)
    }
}

impl CommitmentIndex {
    /// Cuts `blob` into one commitment per row. Fails exactly when `blob` is not
    /// `rows` times 48 bytes long.
    pub fn new(blob: &[u8], rows: u16) -> (index: Result<CommitmentIndex, Error>)
        ensures
            index is Ok <==> blob.len() == rows * 48,
            index matches Err(e) ==> e == Error::MalformedCommitmentBlob,
            index matches Ok(ix) ==> ix@ == entries(blob@) && ix@.len() == rows,
    {
        match from_slice(blob) {
            Ok(list) => {
                assert(list@.len() == bytes_of(list@).len());
                if list.len() == rows as usize {
                    Ok(CommitmentIndex { rows: list })
                } else {
                    Err(Error::MalformedCommitmentBlob)
                }
            },
            Err(e) => Err(e),
        }
    }

    /// Number of rows that have a commitment.
    pub fn len(&self) -> (len: usize)
        ensures
            len == self@.len(),
    {
        self.rows.len()
    }

    /// The commitment of `row`, if the block has such a row.
    pub fn get(&self, row: u32) -> (commitment: Option<Commitment>)
        ensures
            commitment is Some <==> row < self@.len(),
            commitment matches Some(c) ==> c@ == self@[row as int],
    {
        if (row as usize) < self.rows.len() {
            Some(self.rows[row as usize])
        } else {
            None
        }
    }

    /// The commitment of a row that the block has.
    pub fn commitment(&self, row: u32) -> (commitment: Commitment)
        requires
            row < self@.len(),
        ensures
            commitment@ == self@[row as int],
    {
        self.rows[row as usize]
    }
}

} // verus!
