use cell_proof::error::{Error, ErrorKind, VerificationError};
use cell_proof::header::{extract_kate, HeaderExtension, KateCommitment};

fn record(rows: u16, cols: u16, root: u8, commitment: Vec<u8>) -> KateCommitment {
    KateCommitment { rows, cols, data_root: [root; 32], commitment }
}

#[test]
fn extract_kate_reads_version_one() {
    let extension = HeaderExtension::V1(record(4, 8, 0xaa, vec![1, 2, 3]));
    let (rows, cols, data_root, commitment) = extract_kate(&extension);
    assert_eq!(rows, 4);
    assert_eq!(cols, 8);
    assert_eq!(data_root, [0xaa; 32]);
    assert_eq!(commitment, vec![1, 2, 3]);
}

#[test]
fn extract_kate_reads_version_two() {
    let extension = HeaderExtension::V2(record(256, 512, 0x17, vec![9; 96]));
    let (rows, cols, data_root, commitment) = extract_kate(&extension);
    assert_eq!(rows, 256);
    assert_eq!(cols, 512);
    assert_eq!(data_root, [0x17; 32]);
    assert_eq!(commitment, vec![9; 96]);
}

#[test]
fn extract_kate_gives_the_same_for_both_versions() {
    let one = HeaderExtension::V1(record(2, 4, 5, vec![7; 96]));
    let two = HeaderExtension::V2(record(2, 4, 5, vec![7; 96]));
    assert_eq!(extract_kate(&one), extract_kate(&two));
}

#[test]
fn extract_kate_leaves_the_extension_as_it_was() {
    let extension = HeaderExtension::V1(record(1, 3, 0, vec![4; 48]));
    let before = extension.clone();
    let _ = extract_kate(&extension);
    assert_eq!(extension, before);
}

#[test]
fn extract_kate_copes_with_empty_commitment() {
    let extension = HeaderExtension::V2(record(0, 0, 0, Vec::new()));
    let (rows, cols, _, commitment) = extract_kate(&extension);
    assert_eq!((rows, cols), (0, 0));
    assert!(commitment.is_empty());
}

#[test]
fn error_messages_name_the_failure() {
    assert_eq!(
        Error::MalformedCommitmentBlob.message(),
        "commitment bytes do not hold one 48-byte entry per row"
    );
    assert_eq!(Error::InvalidDimensions.message(), "rows and columns must both be positive");
    assert_eq!(Error::UnverifiableDimensions.message(), "more than 2 columns is required");
    assert_eq!(
        Error::MalformedProofStream.message(),
        "proof bytes are not a whole number of 80-byte chunks"
    );
}

#[test]
fn verification_error_keeps_kind_and_detail() {
    let error = VerificationError::new(ErrorKind::Arithmetic, "not a curve point".to_string());
    assert_eq!(error.kind, ErrorKind::Arithmetic);
    assert_eq!(error.detail, "not a curve point");
    assert_eq!(error.clone(), error);
}

#[test]
fn verification_error_for_a_position_outside() {
    let error = VerificationError::outside();
    assert_eq!(error.kind, ErrorKind::PositionOutOfDomain);
    assert_eq!(error.detail, "position is outside the declared dimensions");
}
