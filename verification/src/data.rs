//! Cells: a position together with the bytes that the remote node returned for it.

use crate::bytes::copy_chunk;
use crate::config::{CELL_SIZE, CELL_WITH_PROOF_SIZE, PROOF_SIZE};
use crate::error::Error;
use crate::matrix::Position;
use vstd::prelude::*;

verus! {

/// The bytes of one cell: the claimed value, then the opening proof.
pub type Content = [u8; CELL_WITH_PROOF_SIZE];

/// The bytes of chunk `i` in a run of 80-byte chunks.
pub open spec fn chunk(stream: Seq<u8>, i: int) -> Seq<u8> {
    stream.subrange(80 * i, 80 * i + 80)
}

/// The part of a cell's content that is the claimed value: its first 32 bytes.
pub open spec fn value_of(content: Seq<u8>) -> Seq<u8> {
    content.subrange(0, 32)
}

/// The part of a cell's content that is the opening proof: its last 48 bytes.
pub open spec fn proof_of(content: Seq<u8>) -> Seq<u8> {
    content.subrange(32, 80)
}

/// A position of the matrix with the content claimed for it.
#[derive(Clone, Copy, Debug, PartialEq, Eq)]
pub struct Cell {
    pub position: Position,
    pub content: Content,
}

impl View for Cell {
    type V = (Position, Seq<u8>);

    /// The position, and the content as its 80 bytes.
    open spec fn view(&self) -> (Position, Seq<u8>) {
        (self.position, self.content@)
    }
}

impl Cell {
    pub fn new(position: Position, content: Content) -> (cell: Cell)
        ensures
            cell.position == position,
            cell.content == content,
    {
        Cell { position, content }
    }

    /// The cell whose content is `value` followed by `opening`.
    pub fn from_parts(
        position: Position,
        value: &[u8; CELL_SIZE],
        opening: &[u8; PROOF_SIZE],
    ) -> (cell: Cell)
        ensures
            cell.position == position,
            cell.content@ == value@ + opening@,
            value_of(cell.content@) == value@,
            proof_of(cell.content@) == opening@,
    {
        let mut content: Content = [0u8; CELL_WITH_PROOF_SIZE];
        let mut i: usize = 0;
        while i < CELL_SIZE
            invariant
                i <= CELL_SIZE,
                forall|j: int| 0 <= j < i ==> content@[j] == value@[j],
            decreases CELL_SIZE - i,
        {
            content[i] = value[i];
            i += 1;
        }
        let mut k: usize = 0;
        while k < PROOF_SIZE
            invariant
                k <= PROOF_SIZE,
                forall|j: int| 0 <= j < CELL_SIZE ==> content@[j] == value@[j],
                forall|j: int| 0 <= j < k ==> content@[CELL_SIZE + j] == opening@[j],
            decreases PROOF_SIZE - k,
        {
            content[CELL_SIZE + k] = opening[k];
            k += 1;
        }
        assert(content@ =~= value@ + opening@);
        assert(value_of(content@) =~= value@);
        assert(proof_of(content@) =~= opening@);
        Cell { position, content }
    }

    /// The claimed evaluation of the row's polynomial.
    pub fn claimed_value(&self) -> (value: [u8; CELL_SIZE])
        ensures
            value@ == value_of(self.content@),
    {
        copy_chunk::<CELL_SIZE>(self.content.as_slice(), 0)
    }

    /// The proof that opens the row's commitment at this cell.
    pub fn opening_proof(&self) -> (opening: [u8; PROOF_SIZE])
        ensures
            opening@ == proof_of(self.content@),
    {
        copy_chunk::<PROOF_SIZE>(self.content.as_slice(), CELL_SIZE)
    }
}

/// A cell's content is its claimed value followed by its opening proof, and
/// nothing else: the two parts give the content back.
pub proof fn lemma_content_is_value_then_proof(content: Seq<u8>)
    requires
        content.len() == 80,
    ensures
        value_of(content).len() == 32,
        proof_of(content).len() == 48,
        value_of(content) + proof_of(content) == content,
{
    assert(value_of(content) + proof_of(content) =~= content);
}

/// The cells that a proof stream holds for the requested positions: as many as
/// there are both positions and chunks, chunk `i` with position `i`.
pub open spec fn paired(stream: Seq<u8>, positions: Seq<Position>) -> Seq<(Position, Seq<u8>)> {
    Seq::new(
        if positions.len() <= stream.len() / 80 {
            positions.len()
        } else {
            (stream.len() / 80) as nat
        },
        |i: int| (positions[i], chunk(stream, i)),
    )
}

/// Which position a cell gets depends on its place in the request alone, and
/// which content it gets on its place in the stream alone. So where the chunks
/// of two cells change places in the stream, each position is paired with the
/// other's content, and nothing marks the result as wrong.
pub proof fn lemma_pairing_is_positional(
    stream: Seq<u8>,
    other_stream: Seq<u8>,
    positions: Seq<Position>,
    other_positions: Seq<Position>,
    i: int,
)
    requires
        0 <= i < paired(stream, positions).len(),
    ensures
        paired(stream, positions)[i] == (positions[i], chunk(stream, i)),
        i < paired(other_stream, positions).len() ==> paired(other_stream, positions)[i].0
            == paired(stream, positions)[i].0,
        i < paired(stream, other_positions).len() ==> paired(stream, other_positions)[i].1
            == paired(stream, positions)[i].1,
{
}

/// Two chunks that arrive in the other order are paired the other way round.
pub proof fn lemma_swapped_chunks(a: Seq<u8>, b: Seq<u8>, p: Position, q: Position)
    requires
        a.len() == 80,
        b.len() == 80,
    ensures
        paired(a + b, seq![p, q]) == seq![(p, a), (q, b)],
        paired(b + a, seq![p, q]) == seq![(p, b), (q, a)],
{
    assert(chunk(a + b, 0) =~= a);
    assert(chunk(a + b, 1) =~= b);
    assert(chunk(b + a, 0) =~= b);
    assert(chunk(b + a, 1) =~= a);
    assert(paired(a + b, seq![p, q]) =~= seq![(p, a), (q, b)]);
    assert(paired(b + a, seq![p, q]) =~= seq![(p, b), (q, a)]);
}

/// A list of cells, each as its position and the bytes of its content.
pub open spec fn cells_view(cells: Seq<Cell>) -> Seq<(Position, Seq<u8>)> {
    cells.map_values(|cell: Cell| cell@)
}

/// Cuts a proof stream into 80-byte chunks and pairs chunk `i` with the `i`-th
/// requested position. Nothing in a chunk says which position it belongs to: the
/// order of the stream alone decides.
///
/// Fails exactly when the stream is not a whole number of chunks.
pub fn decode_cells(stream: &[u8], positions: &[Position]) -> (decoded: Result<Vec<Cell>, Error>)
    ensures
        decoded is Ok <==> stream.len() % 80 == 0,
        decoded matches Err(e) ==> e == Error::MalformedProofStream,
        decoded matches Ok(cells) ==> cells_view(cells@) == paired(stream@, positions@),
{
    if stream.len() % CELL_WITH_PROOF_SIZE != 0 {
        return Err(Error::MalformedProofStream);
    }
    let chunks: usize = stream.len() / CELL_WITH_PROOF_SIZE;
    let count: usize = if positions.len() <= chunks {
        positions.len()
    } else {
        chunks
    };
    let mut cells: Vec<Cell> = Vec::new();
    let mut i: usize = 0;
    while i < count
        invariant
            i <= count,
            count <= positions.len(),
            count <= chunks,
            chunks * 80 == stream.len(),
            cells.len() == i,
            forall|j: int|
                0 <= j < i ==> (#[trigger] cells[j])@ == (positions[j], chunk(stream@, j)),
        decreases count - i,
    {
        let content: Content = copy_chunk::<CELL_WITH_PROOF_SIZE>(stream, i * CELL_WITH_PROOF_SIZE);
        cells.push(Cell { position: positions[i], content });
        i += 1;
    }
    assert(cells_view(cells@) =~= paired(stream@, positions@));
    Ok(cells)
}

} // verus!
