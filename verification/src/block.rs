//! The verification of one block's sampled cells, as a machine that asks for one
//! pairing check at a time.
//!
//! The machine itself holds no pairing check. [`BlockVerifier::next`] says which
//! claim is to be checked, whoever drives the machine has it checked, and
//! [`BlockVerifier::record`] takes the answer. [`BlockVerifier::run`] drives the
//! machine to its end with a check that is passed in.

use crate::commitments::{entries, CommitmentIndex};
use crate::data::{cells_view, decode_cells, paired, Cell};
use crate::error::{Error, VerificationError};
use crate::header::{extract_kate, HeaderExtension};
use crate::machine::{
    keeps_verdicts, lemma_next_keeps_verdicts, lemma_record_is_cell_local, State, Step,
};
use crate::matrix::{Dimensions, Position};
use crate::opening::{
    answered, conclude, outside_verdict, verdict_of, Answer, OpeningClaim, Outcome, Verdict,
};
use vstd::prelude::*;

verus! {

/// Why a block with these sizes cannot be verified at all, if it cannot.
///
/// The proof stream is looked at first, then the commitment bytes, then the
/// counts of rows and columns.
pub open spec fn refusal(rows: u16, cols: u16, blob_len: nat, stream_len: nat) -> Option<Error> {
    if stream_len % 80 != 0 {
        Some(Error::MalformedProofStream)
    } else if blob_len != rows * 48 {
        Some(Error::MalformedCommitmentBlob)
    } else {
        Dimensions::unfit(rows, cols)
    }
}

/// What the machine does next.
#[derive(Clone, Copy, Debug, PartialEq, Eq)]
pub enum Action {
    /// Have this claim checked, and record the answer.
    Check(OpeningClaim),
    /// Every cell has its outcome.
    Finished,
}

impl View for Action {
    type V = Step;

    open spec fn view(&self) -> Step {
        match self {
            Action::Check(claim) => Step::Check(claim@),
            Action::Finished => Step::Finished,
        }
    }
}

/// The outcome for one requested position.
#[derive(Debug, PartialEq, Eq)]
pub struct Report {
    pub position: Position,
    pub outcome: Outcome,
}

impl Clone for Report {
    fn clone(&self) -> (copy: Report)
        ensures
            copy == *self,
    {
        Report { position: self.position, outcome: self.outcome.clone() }
    }
}

impl View for Report {
    type V = (Position, Verdict);

    open spec fn view(&self) -> (Position, Verdict) {
        (self.position, self.outcome@)
    }
}

/// A list of outcomes as verdicts.
pub open spec fn verdicts(outcomes: Seq<Outcome>) -> Seq<Verdict> {
    outcomes.map_values(|outcome: Outcome| outcome@)
}

/// The verdicts of a list with one more outcome are the list's verdicts with one
/// more verdict.
proof fn lemma_verdicts_push(outcomes: Seq<Outcome>, outcome: Outcome)
    ensures
        verdicts(outcomes.push(outcome)) == verdicts(outcomes).push(outcome@),
{
    assert(verdicts(outcomes.push(outcome)) =~= verdicts(outcomes).push(outcome@));
}

/// A list of reports as plain values.
pub open spec fn reports_view(reports: Seq<Report>) -> Seq<(Position, Verdict)> {
    reports.map_values(|report: Report| report@)
}

/// The verification of one block's sampled cells.
///
/// It is made by [`BlockVerifier::start`], which refuses a block that cannot be
/// verified at all. After that a failure concerns one cell only and is that
/// cell's outcome.
#[derive(Debug)]
pub struct BlockVerifier {
    dimensions: Dimensions,
    commitments: CommitmentIndex,
    cells: Vec<Cell>,
    outcomes: Vec<Outcome>,
    awaiting: bool,
}

impl View for BlockVerifier {
    type V = State;

    closed spec fn view(&self) -> State {
        State {
            rows: self.dimensions.height(),
            cols: self.dimensions.width(),
            commitments: self.commitments@,
            cells: cells_view(self.cells@),
            outcomes: verdicts(self.outcomes@),
            awaiting: self.awaiting,
        }
    }
}

impl BlockVerifier {
    /// Decodes what a header extension and a proof stream hold for the requested
    /// positions, and refuses the block if [`refusal`] gives a reason.
    pub fn start(
        extension: &HeaderExtension,
        positions: &[Position],
        stream: &[u8],
    ) -> (started: Result<BlockVerifier, Error>)
        ensures
            started matches Err(e) ==> refusal(
                extension.kate().rows,
                extension.kate().cols,
                extension.kate().commitment@.len(),
                stream@.len(),
            ) == Some(e),
            started matches Ok(verifier) ==> refusal(
                extension.kate().rows,
                extension.kate().cols,
                extension.kate().commitment@.len(),
                stream@.len(),
            ) is None && verifier@ == State::initial(
                extension.kate().rows as nat,
                extension.kate().cols as nat,
                entries(extension.kate().commitment@),
                paired(stream@, positions@),
            ) && verifier@.wf(),
    {
        let (rows, cols, _, blob) = extract_kate(extension);
        let cells = match decode_cells(stream, positions) {
            Ok(cells) => cells,
            Err(e) => {
                return Err(e);
            },
        };
        let commitments = match CommitmentIndex::new(blob.as_slice(), rows) {
            Ok(commitments) => commitments,
            Err(e) => {
                return Err(e);
            },
        };
        let dimensions = match Dimensions::for_verification(rows, cols) {
            Ok(dimensions) => dimensions,
            Err(e) => {
                return Err(e);
            },
        };
        let verifier = BlockVerifier {
            dimensions,
            commitments,
            cells,
            outcomes: Vec::new(),
            awaiting: false,
        };
        assert(verifier@ =~~= State::initial(
            rows as nat,
            cols as nat,
            entries(blob@),
            paired(stream@, positions@),
        ));
        Ok(verifier)
    }

    /// Number of cells to verify.
    pub fn len(&self) -> (len: usize)
        ensures
            len == self@.cells.len(),
    {
        self.cells.len()
    }

    /// Tells whether every cell has its outcome.
    pub fn is_finished(&self) -> (finished: bool)
        ensures
            finished == self@.finished(),
    {
        self.outcomes.len() == self.cells.len()
    }

    /// Gives every cell outside the matrix that comes before the next cell inside
    /// it the outcome of a position out of the domain, and returns the claim to
    /// check for that next cell, or [`Action::Finished`] when no cell is left.
    pub fn next(&mut self) -> (action: Action)
        requires
            old(self)@.wf(),
        ensures
            final(self)@.wf(),
            final(self)@ == old(self)@.polled(),
            action@ == final(self)@.action(),
    {
        while self.outcomes.len() < self.cells.len() && !self.dimensions.contains(
            self.cells[self.outcomes.len()].position,
        )
            invariant
                self@.wf(),
                self@.settled() == old(self)@.settled(),
                self.outcomes.len() <= self.cells.len(),
            decreases self.cells.len() - self.outcomes.len(),
        {
            let ghost before = self@;
            let ghost settled = self.outcomes@;
            let outcome = Outcome::Error(VerificationError::outside());
            self.outcomes.push(outcome);
            proof {
                lemma_verdicts_push(settled, outcome);
                assert(self@ =~~= State {
                    outcomes: before.outcomes.push(outside_verdict()),
                    ..before
                });
            }
        }
        let ghost settled = self@;
        assert(settled == settled.settled());
        if self.outcomes.len() < self.cells.len() {
            let cell = self.cells[self.outcomes.len()];
            let commitment = self.commitments.commitment(cell.position.row);
            self.awaiting = true;
            assert(self@ =~~= State { awaiting: true, ..settled });
            Action::Check(OpeningClaim { dimensions: self.dimensions, commitment, cell })
        } else {
            self.awaiting = false;
            assert(self@ =~~= State { awaiting: false, ..settled });
            Action::Finished
        }
    }

    /// Takes the answer to the claim that [`BlockVerifier::next`] handed out last
    /// and makes it the cell's outcome. Where no answer is awaited, nothing
    /// changes and the result is `false`.
    pub fn record(&mut self, answer: Answer) -> (taken: bool)
        requires
            old(self)@.wf(),
        ensures
            final(self)@.wf(),
            taken == old(self)@.awaiting,
            final(self)@ == old(self)@.recorded(answer),
    {
        if self.awaiting {
            let ghost before = self@;
            let ghost settled = self.outcomes@;
            let outcome = conclude(answer);
            self.outcomes.push(outcome);
            self.awaiting = false;
            proof {
                lemma_verdicts_push(settled, outcome);
                assert(self@ =~~= before.recorded(answer));
            }
            true
        } else {
            false
        }
    }

    /// Runs the machine to its end, with `check` as the pairing check: every cell
    /// inside the matrix that has no outcome yet is judged by what `check`
    /// answers to its claim, whatever that is, and every cell outside the matrix
    /// is an error without `check` being asked. Returns the reports on all cells.
    pub fn run<F: Fn(&OpeningClaim) -> Answer>(&mut self, check: F) -> (reports: Vec<Report>)
        requires
            old(self)@.wf(),
            forall|claim: OpeningClaim| call_requires(check, (&claim,)),
        ensures
            final(self)@.wf(),
            final(self)@.finished(),
            keeps_verdicts(old(self)@, final(self)@),
            forall|i: int|
                old(self)@.outcomes.len() <= i < final(self)@.cells.len() && final(self)@.inside(i)
                    ==> answered(
                    check,
                    final(self)@.claim_at(i),
                    #[trigger] final(self)@.outcomes[i],
                ),
            reports_view(reports@) == final(self)@.reports(),
    {
        let ghost start = self@;
        while !self.is_finished()
            invariant
                self@.wf(),
                keeps_verdicts(start, self@),
                forall|claim: OpeningClaim| call_requires(check, (&claim,)),
                forall|i: int|
                    start.outcomes.len() <= i < self@.outcomes.len() && self@.inside(i)
                        ==> answered(check, self@.claim_at(i), #[trigger] self@.outcomes[i]),
            decreases self@.cells.len() - self@.outcomes.len(),
        {
            let ghost before = self@;
            proof {
                lemma_next_keeps_verdicts(before);
            }
            match self.next() {
                Action::Check(claim) => {
                    let ghost polled = self@;
                    let answer = check(&claim);
                    self.record(answer);
                    proof {
                        lemma_record_is_cell_local(polled, answer);
                        assert(self@.outcomes[polled.outcomes.len() as int] == verdict_of(answer));
                    }
                },
                Action::Finished => {},
            }
            // A verdict that was there before is still there; one that `next` gave
            // is for a cell outside the matrix; the one that `record` gave is the
            // verdict of `answer`.
            assert forall|i: int|
                start.outcomes.len() <= i < self@.outcomes.len() && self@.inside(i) implies answered(
                check,
                self@.claim_at(i),
                #[trigger] self@.outcomes[i],
            ) by {
                assert(self@.claim_at(i) == before.claim_at(i));
                assert(self@.inside(i) == before.inside(i));
                if i < before.outcomes.len() {
                    assert(self@.outcomes[i] == before.outcomes[i]);
                }
            }
        }
        self.reports()
    }

    /// The outcomes so far, each with the position it was requested for.
    pub fn reports(&self) -> (reports: Vec<Report>)
        requires
            self@.wf(),
        ensures
            reports_view(reports@) == self@.reports(),
    {
        let mut reports: Vec<Report> = Vec::new();
        let mut i: usize = 0;
        while i < self.outcomes.len()
            invariant
                i <= self.outcomes.len(),
                self.outcomes.len() <= self.cells.len(),
                reports.len() == i,
                forall|j: int|
                    0 <= j < i ==> (#[trigger] reports[j])@ == (
                        self.cells[j].position,
                        self.outcomes[j]@,
                    ),
            decreases self.outcomes.len() - i,
        {
            let position = self.cells[i].position;
            reports.push(Report { position, outcome: self.outcomes[i].clone() });
            i += 1;
        }
        assert(reports_view(reports@) =~~= self@.reports());
        reports
    }
}

} // verus!
