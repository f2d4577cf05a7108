use cell_proof::commitments::{from_slice, CommitmentIndex};
use cell_proof::bytes::copy_chunk;
use cell_proof::config::{CELL_SIZE, CELL_WITH_PROOF_SIZE, COMMITMENT_SIZE, PROOF_SIZE};
use cell_proof::data::{decode_cells, Cell};
use cell_proof::error::Error;
use cell_proof::matrix::Position;

fn pattern(len: usize) -> Vec<u8> {
    (0..len).map(|i| (i % 251) as u8).collect()
}

fn array48(bytes: &[u8]) -> [u8; 48] {
    bytes.try_into().expect("48 bytes")
}

fn array80(bytes: &[u8]) -> [u8; 80] {
    bytes.try_into().expect("80 bytes")
}

#[test]
fn sizes_add_up() {
    assert_eq!(CELL_SIZE, 32);
    assert_eq!(PROOF_SIZE, 48);
    assert_eq!(CELL_WITH_PROOF_SIZE, 80);
    assert_eq!(COMMITMENT_SIZE, 48);
}

#[test]
fn copy_chunk_takes_the_bytes_at_the_offset() {
    let source = pattern(200);
    let chunk: [u8; 4] = copy_chunk::<4>(&source, 10);
    assert_eq!(chunk, [10, 11, 12, 13]);
    let whole: [u8; 200] = copy_chunk::<200>(&source, 0);
    assert_eq!(whole.to_vec(), source);
    let none: [u8; 0] = copy_chunk::<0>(&source, 200);
    assert_eq!(none.len(), 0);
}

#[test]
fn from_slice_cuts_in_order() {
    let blob = pattern(3 * 48);
    let list = from_slice(&blob).expect("a whole number of commitments");
    assert_eq!(list.len(), 3);
    assert_eq!(list[0], array48(&blob[0..48]));
    assert_eq!(list[1], array48(&blob[48..96]));
    assert_eq!(list[2], array48(&blob[96..144]));
}

#[test]
fn from_slice_of_nothing_is_empty() {
    assert_eq!(from_slice(&[]), Ok(Vec::new()));
}

#[test]
fn from_slice_rejects_a_partial_entry() {
    assert_eq!(from_slice(&pattern(47)), Err(Error::MalformedCommitmentBlob));
    assert_eq!(from_slice(&pattern(49)), Err(Error::MalformedCommitmentBlob));
    assert_eq!(from_slice(&pattern(95)), Err(Error::MalformedCommitmentBlob));
    assert_eq!(from_slice(&pattern(1)), Err(Error::MalformedCommitmentBlob));
}

#[test]
fn commitment_index_has_one_entry_per_row() {
    let blob = pattern(256 * 48);
    let index = CommitmentIndex::new(&blob, 256).expect("256 commitments");
    assert_eq!(index.len(), 256);
    for row in [0u32, 1, 20, 128, 255] {
        let start = row as usize * 48;
        assert_eq!(index.commitment(row), array48(&blob[start..start + 48]));
        assert_eq!(index.get(row), Some(array48(&blob[start..start + 48])));
    }
}

#[test]
fn commitment_index_has_nothing_past_the_last_row() {
    let blob = pattern(4 * 48);
    let index = CommitmentIndex::new(&blob, 4).unwrap();
    assert_eq!(index.get(4), None);
    assert_eq!(index.get(u32::MAX), None);
}

#[test]
fn commitment_index_rejects_a_length_that_is_not_rows_times_48() {
    assert_eq!(CommitmentIndex::new(&pattern(4 * 48 - 1), 4), Err(Error::MalformedCommitmentBlob));
    assert_eq!(CommitmentIndex::new(&pattern(4 * 48 + 1), 4), Err(Error::MalformedCommitmentBlob));
    assert_eq!(CommitmentIndex::new(&pattern(3 * 48), 4), Err(Error::MalformedCommitmentBlob));
    assert_eq!(CommitmentIndex::new(&pattern(5 * 48), 4), Err(Error::MalformedCommitmentBlob));
    assert_eq!(CommitmentIndex::new(&[], 4), Err(Error::MalformedCommitmentBlob));
    assert_eq!(CommitmentIndex::new(&pattern(48), 0), Err(Error::MalformedCommitmentBlob));
}

#[test]
fn commitment_index_of_no_rows_is_empty() {
    let index = CommitmentIndex::new(&[], 0).expect("no rows, no bytes");
    assert_eq!(index.len(), 0);
    assert_eq!(index.get(0), None);
}

#[test]
fn commitment_index_takes_the_most_rows() {
    let blob = pattern(65_535 * 48);
    let index = CommitmentIndex::new(&blob, u16::MAX).unwrap();
    assert_eq!(index.len(), 65_535);
    assert_eq!(index.commitment(65_534), array48(&blob[65_534 * 48..]));
}

#[test]
fn cell_content_is_value_then_proof() {
    let content = array80(&pattern(80));
    let cell = Cell::new(Position::new(20, 192), content);
    assert_eq!(cell.position, Position::new(20, 192));
    assert_eq!(cell.content, content);
    assert_eq!(cell.claimed_value().to_vec(), content[0..32].to_vec());
    assert_eq!(cell.opening_proof().to_vec(), content[32..80].to_vec());
}

#[test]
fn cell_parts_make_up_the_content() {
    let content = array80(&pattern(331)[251..]);
    let cell = Cell::new(Position::new(0, 0), content);
    let mut joined = cell.claimed_value().to_vec();
    joined.extend_from_slice(&cell.opening_proof());
    assert_eq!(joined, content.to_vec());
}

#[test]
fn cell_from_parts_puts_the_value_first() {
    let value: [u8; 32] = pattern(32).try_into().unwrap();
    let opening: [u8; 48] = array48(&pattern(148)[100..]);
    let cell = Cell::from_parts(Position::new(3, 4), &value, &opening);
    assert_eq!(cell.position, Position::new(3, 4));
    assert_eq!(cell.content[..32].to_vec(), value.to_vec());
    assert_eq!(cell.content[32..].to_vec(), opening.to_vec());
    assert_eq!(cell.claimed_value(), value);
    assert_eq!(cell.opening_proof(), opening);
}

#[test]
fn cell_from_parts_undoes_the_split() {
    let content = array80(&pattern(200)[120..]);
    let cell = Cell::new(Position::new(9, 9), content);
    let again = Cell::from_parts(cell.position, &cell.claimed_value(), &cell.opening_proof());
    assert_eq!(again, cell);
}

#[test]
fn decode_cells_pairs_chunks_with_positions_in_order() {
    let stream = pattern(160);
    let positions = [Position::new(20, 192), Position::new(128, 136)];
    let cells = decode_cells(&stream, &positions).expect("two whole chunks");
    assert_eq!(
        cells,
        vec![
            Cell::new(Position::new(20, 192), array80(&stream[0..80])),
            Cell::new(Position::new(128, 136), array80(&stream[80..160])),
        ]
    );
}

#[test]
fn decode_cells_rejects_a_stream_that_is_not_whole_chunks() {
    let positions = [Position::new(20, 192), Position::new(128, 136)];
    for len in [1usize, 79, 81, 159, 161, 239] {
        assert_eq!(decode_cells(&pattern(len), &positions), Err(Error::MalformedProofStream));
    }
}

#[test]
fn decode_cells_rejects_a_broken_stream_without_positions() {
    assert_eq!(decode_cells(&pattern(7), &[]), Err(Error::MalformedProofStream));
}

#[test]
fn decode_cells_of_an_empty_stream_is_empty() {
    assert_eq!(decode_cells(&[], &[]), Ok(Vec::new()));
    assert_eq!(decode_cells(&[], &[Position::new(1, 1)]), Ok(Vec::new()));
}

#[test]
fn decode_cells_stops_at_the_last_position() {
    let stream = pattern(240);
    let positions = [Position::new(3, 4)];
    let cells = decode_cells(&stream, &positions).unwrap();
    assert_eq!(cells, vec![Cell::new(Position::new(3, 4), array80(&stream[0..80]))]);
}

#[test]
fn decode_cells_stops_at_the_last_chunk() {
    let stream = pattern(80);
    let positions = [Position::new(3, 4), Position::new(5, 6), Position::new(7, 8)];
    let cells = decode_cells(&stream, &positions).unwrap();
    assert_eq!(cells, vec![Cell::new(Position::new(3, 4), array80(&stream[0..80]))]);
}

#[test]
fn decode_cells_does_not_notice_swapped_chunks() {
    let first = array80(&pattern(80));
    let second = array80(&pattern(160)[80..]);
    let positions = [Position::new(20, 192), Position::new(128, 136)];

    let mut in_order = first.to_vec();
    in_order.extend_from_slice(&second);
    let mut swapped = second.to_vec();
    swapped.extend_from_slice(&first);

    assert_eq!(
        decode_cells(&in_order, &positions),
        Ok(vec![Cell::new(positions[0], first), Cell::new(positions[1], second)])
    );
    assert_eq!(
        decode_cells(&swapped, &positions),
        Ok(vec![Cell::new(positions[0], second), Cell::new(positions[1], first)])
    );
}
