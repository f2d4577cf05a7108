//! The check of one cell against its row's commitment: what is asked of the
//! pairing check, and what its answer means.

use crate::commitments::Commitment;
use crate::data::Cell;
use crate::error::{Error, ErrorKind, VerificationError};
use crate::matrix::{Dimensions, Position};
use vstd::prelude::*;

verus! {

/// The statement that the pairing check decides: `cell`'s claimed value is the
/// evaluation of the polynomial committed to by `commitment`, at the point of the
/// cell's column in a domain as wide as `dimensions`, and the cell's proof opens
/// the commitment there.
#[derive(Clone, Copy, Debug, PartialEq, Eq)]
pub struct OpeningClaim {
    pub dimensions: Dimensions,
    pub commitment: Commitment,
    pub cell: Cell,
}

/// An [`OpeningClaim`] as plain values: the matrix's row and column counts, and
/// the byte arrays as sequences.
#[verifier::ext_equal]
pub struct Claim {
    pub rows: nat,
    pub cols: nat,
    pub commitment: Seq<u8>,
    pub position: Position,
    pub content: Seq<u8>,
}

impl View for OpeningClaim {
    type V = Claim;

    open spec fn view(&self) -> Claim {
        Claim {
            rows: self.dimensions.height(),
            cols: self.dimensions.width(),
            commitment: self.commitment@,
            position: self.cell.position,
            content: self.cell.content@,
        }
    }
}

/// What the pairing check answers to a claim: whether the opening holds, or why
/// the check could not run.
pub type Answer = Result<bool, VerificationError>;

/// What the verification of one cell came to.
#[derive(Debug, PartialEq, Eq)]
pub enum Outcome {
    /// The check ran and the opening holds.
    Verified,
    /// The check ran and the opening does not hold.
    Rejected,
    /// The check could not run.
    Error(VerificationError),
}

impl Clone for Outcome {
    fn clone(&self) -> (copy: Outcome)
        ensures
            copy == *self,
    {
        match self {
            Outcome::Verified => Outcome::Verified,
            Outcome::Rejected => Outcome::Rejected,
            Outcome::Error(error) => Outcome::Error(error.clone()),
        }
    }
}

/// An [`Outcome`] with the detail of its error as text.
#[verifier::ext_equal]
pub enum Verdict {
    Verified,
    Rejected,
    Error(ErrorKind, Seq<char>),
}

impl View for Outcome {
    type V = Verdict;

    open spec fn view(&self) -> Verdict {
        match self {
            Outcome::Verified => Verdict::Verified,
            Outcome::Rejected => Verdict::Rejected,
            Outcome::Error(error) => Verdict::Error(error.kind, error.detail@),
        }
    }
}

/// The verdict that an answer of the pairing check stands for.
pub open spec fn verdict_of(answer: Answer) -> Verdict {
    match answer {
        Ok(true) => Verdict::Verified,
        Ok(false) => Verdict::Rejected,
        Err(error) => Verdict::Error(error.kind, error.detail@),
    }
}

/// The verdict on a cell whose position the matrix does not hold.
pub open spec fn outside_verdict() -> Verdict {
    Verdict::Error(ErrorKind::PositionOutOfDomain, VerificationError::outside_text())
}

/// Turns the answer of the pairing check into the outcome for the cell: verified
/// when the check ran and held, rejected when it ran and did not hold, and an
/// error with the check's own kind and detail when it could not run.
pub fn conclude(answer: Answer) -> (outcome: Outcome)
    ensures
        outcome@ == verdict_of(answer),
{
    match answer {
        Ok(true) => Outcome::Verified,
        Ok(false) => Outcome::Rejected,
        Err(error) => Outcome::Error(error),
    }
}

/// Whether `verdict` is the verdict of an answer that `check` can give to `claim`.
pub open spec fn answered<F: Fn(&OpeningClaim) -> Answer>(
    check: F,
    claim: Claim,
    verdict: Verdict,
) -> bool {
    exists|asked: OpeningClaim, answer: Answer|
        #![trigger call_ensures(check, (&asked,), answer)]
        asked@ == claim && call_ensures(check, (&asked,), answer) && verdict == verdict_of(answer)
}

/// Verifies one cell against the commitment of its row, with `check` as the
/// pairing check.
///
/// A matrix of two columns or fewer is refused, whatever the cell. Otherwise a
/// cell whose position the matrix does not hold is an error of its own, without
/// `check` being asked, and any other cell is judged by what `check` answers to
/// its claim.
pub fn verify_cell<F: Fn(&OpeningClaim) -> Answer>(
    dimensions: Dimensions,
    commitment: &Commitment,
    cell: &Cell,
    check: F,
) -> (verified: Result<Outcome, Error>)
    requires
        forall|claim: OpeningClaim| call_requires(check, (&claim,)),
    ensures
        verified is Ok <==> dimensions.verifiable(),
        verified matches Err(e) ==> e == Error::UnverifiableDimensions,
        verified matches Ok(outcome) ==> if dimensions.holds(cell.position) {
            answered(
                check,
                (OpeningClaim { dimensions, commitment: *commitment, cell: *cell })@,
                outcome@,
            )
        } else {
            outcome@ == outside_verdict()
        },
{
    if !dimensions.is_verifiable() {
        return Err(Error::UnverifiableDimensions);
    }
    if !dimensions.contains(cell.position) {
        return Ok(Outcome::Error(VerificationError::outside()));
    }
    let claim = OpeningClaim { dimensions, commitment: *commitment, cell: *cell };
    Ok(conclude(check(&claim)))
}

} // verus!
