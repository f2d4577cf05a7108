//! What can go wrong for a whole block, and for a single cell.

use vstd::prelude::*;

verus! {

/// A failure that concerns the whole block: none of its cells is verified.
#[derive(Clone, Copy, Debug, PartialEq, Eq, Structural)]
pub enum Error {
    /// The commitment bytes are not one 48-byte entry per row.
    MalformedCommitmentBlob,
    /// The row count or the column count is zero.
    InvalidDimensions,
    /// The shape is valid, but it has too few columns for openings to be checked.
    UnverifiableDimensions,
    /// The proof bytes are not a whole number of 80-byte chunks.
    MalformedProofStream,
}

impl Error {
    /// The text of [`Error::message`].
    pub open spec fn text(self) -> Seq<char> {
        match self {
            Error::MalformedCommitmentBlob => {
                "commitment bytes do not hold one 48-byte entry per row"@
            },
            Error::InvalidDimensions => "rows and columns must both be positive"@,
            Error::UnverifiableDimensions => "more than 2 columns is required"@,
            Error::MalformedProofStream => "proof bytes are not a whole number of 80-byte chunks"@,
        }
    }

    /// A sentence that describes the failure.
    pub fn message(&self) -> (message: String)
        ensures
            message@ == self.text(),
    {
        match self {
            Error::MalformedCommitmentBlob => {
                "commitment bytes do not hold one 48-byte entry per row".to_owned()
            },
            Error::InvalidDimensions => "rows and columns must both be positive".to_owned(),
            Error::UnverifiableDimensions => "more than 2 columns is required".to_owned(),
            Error::MalformedProofStream => {
                "proof bytes are not a whole number of 80-byte chunks".to_owned()
            },
        }
    }
}

/// Why the check of one cell could not be carried out.
#[derive(Clone, Copy, Debug, PartialEq, Eq, Structural)]
pub enum ErrorKind {
    /// The public parameters do not fit the declared dimensions.
    MalformedParameters,
    /// A value, a proof or a commitment is not a valid field or curve element.
    Arithmetic,
    /// The cell's position lies outside the declared dimensions.
    PositionOutOfDomain,
}

/// A check that could not run, as opposed to one that ran and failed.
#[derive(Debug, PartialEq, Eq)]
pub struct VerificationError {
    pub kind: ErrorKind,
    pub detail: String,
}

impl Clone for VerificationError {
    fn clone(&self) -> (copy: VerificationError)
        ensures
            copy == *self,
    {
        VerificationError { kind: self.kind, detail: self.detail.clone() }
    }
}

impl VerificationError {
    pub fn new(kind: ErrorKind, detail: String) -> (error: VerificationError)
        ensures
            error.kind == kind,
            error.detail == detail,
    {
        VerificationError { kind, detail }
    }

    /// The text that [`VerificationError::outside`] gives as detail.
    pub open spec fn outside_text() -> Seq<char> {
        "position is outside the declared dimensions"@
    }

    /// The error of a cell whose position the matrix does not hold.
    pub fn outside() -> (error: VerificationError)
        ensures
            error@ == (ErrorKind::PositionOutOfDomain, Self::outside_text()),
    {
        VerificationError {
            kind: ErrorKind::PositionOutOfDomain,
            detail: "position is outside the declared dimensions".to_owned(),
        }
    }
}

impl View for VerificationError {
    type V = (ErrorKind, Seq<char>);

    /// The kind, and the detail as text.
    open spec fn view(&self) -> (ErrorKind, Seq<char>) {
        (self.kind, self.detail@)
    }
}

} // verus!
