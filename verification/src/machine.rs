//! The states of a block's verification and the steps between them, as plain
//! values, with the laws that hold of every run.
//!
//! [`crate::block::BlockVerifier`] is the machine that goes through these states.

use crate::matrix::Position;
use crate::opening::{outside_verdict, verdict_of, Answer, Claim, Verdict};
use vstd::prelude::*;

verus! {

/// What the machine does next: it has a claim checked, or it is finished.
#[verifier::ext_equal]
pub enum Step {
    Check(Claim),
    Finished,
}

/// The machine's state as plain values.
#[verifier::ext_equal]
pub struct State {
    /// Number of rows of the matrix.
    pub rows: nat,
    /// Number of columns of the matrix.
    pub cols: nat,
    /// The commitments, in row order.
    pub commitments: Seq<Seq<u8>>,
    /// The cells to verify, in the order in which they were requested.
    pub cells: Seq<(Position, Seq<u8>)>,
    /// The verdicts on the first cells, in the same order.
    pub outcomes: Seq<Verdict>,
    /// Whether a claim was handed out whose answer has not come back.
    pub awaiting: bool,
}

impl State {
    /// The state before any cell was looked at.
    pub open spec fn initial(
        rows: nat,
        cols: nat,
        commitments: Seq<Seq<u8>>,
        cells: Seq<(Position, Seq<u8>)>,
    ) -> State {
        State { rows, cols, commitments, cells, outcomes: Seq::empty(), awaiting: false }
    }

    /// Whether the matrix holds the position of cell `i`.
    pub open spec fn inside(self, i: int) -> bool {
        self.cells[i].0.row < self.rows && self.cells[i].0.col < self.cols
    }

    /// Whether every cell has its verdict.
    pub open spec fn finished(self) -> bool {
        self.outcomes.len() == self.cells.len()
    }

    /// What holds of every state that the machine reaches: the matrix can be
    /// verified against, every row has its commitment, the verdicts are those of
    /// the first cells, a cell outside the matrix has the verdict
    /// [`outside_verdict`], and an awaited answer is that for the first cell
    /// without a verdict, which lies inside the matrix.
    pub open spec fn wf(self) -> bool {
        &&& self.rows > 0
        &&& self.cols > 2
        &&& self.commitments.len() == self.rows
        &&& self.outcomes.len() <= self.cells.len()
        &&& forall|i: int|
            0 <= i < self.outcomes.len() && !self.inside(i) ==> #[trigger] self.outcomes[i]
                == outside_verdict()
        &&& self.awaiting ==> !self.finished() && self.inside(self.outcomes.len() as int)
    }

    /// The state after every cell outside the matrix that comes before the next
    /// cell inside it has been given its verdict.
    pub open spec fn settled(self) -> State
        decreases self.cells.len() - self.outcomes.len(),
    {
        if self.outcomes.len() < self.cells.len() && !self.inside(self.outcomes.len() as int) {
            State { outcomes: self.outcomes.push(outside_verdict()), ..self }.settled()
        } else {
            self
        }
    }

    /// The claim for cell `i`: that the cell's content opens the commitment of
    /// the cell's row at the cell's column.
    pub open spec fn claim_at(self, i: int) -> Claim {
        Claim {
            rows: self.rows,
            cols: self.cols,
            commitment: self.commitments[self.cells[i].0.row as int],
            position: self.cells[i].0,
            content: self.cells[i].1,
        }
    }

    /// The claim for the first cell without a verdict.
    pub open spec fn claim(self) -> Claim {
        self.claim_at(self.outcomes.len() as int)
    }

    /// The verdict on cell `i` where the pairing check answers as `check` does:
    /// a cell outside the matrix is not checked at all.
    pub open spec fn judged(self, check: spec_fn(Claim) -> Answer, i: int) -> Verdict {
        if self.inside(i) {
            verdict_of(check(self.claim_at(i)))
        } else {
            outside_verdict()
        }
    }

    /// Whether every verdict given so far is the one that `check` leads to.
    pub open spec fn agrees(self, check: spec_fn(Claim) -> Answer) -> bool {
        forall|i: int|
            0 <= i < self.outcomes.len() ==> #[trigger] self.outcomes[i] == self.judged(check, i)
    }

    /// The state after a call of [`crate::block::BlockVerifier::next`].
    pub open spec fn polled(self) -> State {
        let settled = self.settled();
        State { awaiting: !settled.finished(), ..settled }
    }

    /// What [`crate::block::BlockVerifier::next`] returns when it leaves the
    /// machine in this state.
    pub open spec fn action(self) -> Step {
        if self.awaiting {
            Step::Check(self.claim())
        } else {
            Step::Finished
        }
    }

    /// The state after a call of [`crate::block::BlockVerifier::record`] with `answer`.
    pub open spec fn recorded(self, answer: Answer) -> State {
        if self.awaiting {
            State { outcomes: self.outcomes.push(verdict_of(answer)), awaiting: false, ..self }
        } else {
            self
        }
    }

    /// The reports on the cells that have a verdict.
    pub open spec fn reports(self) -> Seq<(Position, Verdict)> {
        Seq::new(self.outcomes.len(), |i: int| (self.cells[i].0, self.outcomes[i]))
    }
}

/// Whether two states speak of the same block: the same matrix, commitments and
/// cells.
pub open spec fn same_block(a: State, b: State) -> bool {
    &&& a.rows == b.rows
    &&& a.cols == b.cols
    &&& a.commitments == b.commitments
    &&& a.cells == b.cells
}

/// Whether `later` has every verdict of `earlier`, for the same cells.
pub open spec fn keeps_verdicts(earlier: State, later: State) -> bool {
    &&& same_block(earlier, later)
    &&& earlier.outcomes.len() <= later.outcomes.len()
    &&& forall|i: int|
        0 <= i < earlier.outcomes.len() ==> #[trigger] later.outcomes[i] == earlier.outcomes[i]
}

/// Giving the cells outside the matrix their verdict keeps a well-formed state
/// well formed, leaves the block and the pending answer alone, keeps every
/// verdict given before, gives a verdict to cells outside the matrix only, and
/// stops at the end of the cells or at a cell inside the matrix.
pub proof fn lemma_settled(s: State)
    requires
        s.wf(),
    ensures
        s.settled().wf(),
        s.settled().awaiting == s.awaiting,
        keeps_verdicts(s, s.settled()),
        forall|i: int| s.outcomes.len() <= i < s.settled().outcomes.len() ==> !s.inside(i),
        s.settled().finished() || s.settled().inside(s.settled().outcomes.len() as int),
    decreases s.cells.len() - s.outcomes.len(),
{
    if s.outcomes.len() < s.cells.len() && !s.inside(s.outcomes.len() as int) {
        let t = State { outcomes: s.outcomes.push(outside_verdict()), ..s };
        lemma_settled(t);
        assert forall|i: int| 0 <= i < s.outcomes.len() implies #[trigger] s.settled().outcomes[i]
            == s.outcomes[i] by {
            assert(t.outcomes[i] == s.outcomes[i]);
        }
        assert forall|i: int| s.outcomes.len() <= i < s.settled().outcomes.len() implies !s.inside(
            i,
        ) by {
            assert(t.inside(i) == s.inside(i));
        }
    }
}

/// Asking for the next action keeps the machine well formed, leaves the block
/// alone, keeps every verdict given so far and gives a verdict to cells outside
/// the matrix only. Afterwards the machine is either finished or awaits the
/// answer for a cell inside the matrix, never both; and asking once more changes
/// nothing.
pub proof fn lemma_next_keeps_verdicts(s: State)
    requires
        s.wf(),
    ensures
        s.polled().wf(),
        keeps_verdicts(s, s.polled()),
        forall|i: int| s.outcomes.len() <= i < s.polled().outcomes.len() ==> !s.inside(i),
        s.polled().awaiting != s.polled().finished(),
        s.polled().polled() == s.polled(),
{
    lemma_settled(s);
}

/// The answer to a claim becomes the verdict for the position that the claim
/// names, whatever the answer is; the reports that were there stay as they are,
/// and the next action is for a later cell. So no cell's failure keeps another
/// cell from being verified.
pub proof fn lemma_record_is_cell_local(s: State, answer: Answer)
    requires
        s.wf(),
        s.awaiting,
    ensures
        s.recorded(answer).wf(),
        keeps_verdicts(s, s.recorded(answer)),
        s.recorded(answer).reports() == s.reports().push(
            (s.claim().position, verdict_of(answer)),
        ),
        s.recorded(answer).polled().outcomes.len() > s.outcomes.len(),
{
    let t = s.recorded(answer);
    assert(t.reports() =~= s.reports().push((s.claim().position, verdict_of(answer))));
    lemma_settled(t);
}

/// Once the machine is finished there is one report for each cell, in the order
/// of the request, under the position that was requested; and a cell outside the
/// matrix is reported as a position out of the domain.
pub proof fn lemma_finished_reports(s: State)
    requires
        s.wf(),
        s.finished(),
    ensures
        s.reports().len() == s.cells.len(),
        forall|i: int| 0 <= i < s.cells.len() ==> (#[trigger] s.reports()[i]).0 == s.cells[i].0,
        forall|i: int|
            0 <= i < s.cells.len() && !s.inside(i) ==> (#[trigger] s.reports()[i]).1
                == outside_verdict(),
{
}

/// Where every answer that is recorded is the answer of `check` to the claim that
/// was handed out, every verdict is the one that `check` leads to: asking for the
/// next action keeps it so, and so does recording the answer of `check`.
pub proof fn lemma_run_agrees(s: State, check: spec_fn(Claim) -> Answer)
    requires
        s.wf(),
        s.agrees(check),
    ensures
        s.polled().agrees(check),
        s.awaiting ==> s.recorded(check(s.claim())).agrees(check),
{
    lemma_settled_agrees(s, check);
}

/// The part of [`lemma_run_agrees`] for the cells outside the matrix.
proof fn lemma_settled_agrees(s: State, check: spec_fn(Claim) -> Answer)
    requires
        s.wf(),
        s.agrees(check),
    ensures
        s.settled().agrees(check),
    decreases s.cells.len() - s.outcomes.len(),
{
    if s.outcomes.len() < s.cells.len() && !s.inside(s.outcomes.len() as int) {
        let t = State { outcomes: s.outcomes.push(outside_verdict()), ..s };
        assert forall|i: int| 0 <= i < t.outcomes.len() implies #[trigger] t.outcomes[i]
            == t.judged(check, i) by {
            if i < s.outcomes.len() {
                assert(t.outcomes[i] == s.outcomes[i]);
                assert(s.outcomes[i] == s.judged(check, i));
            }
        }
        lemma_settled_agrees(t, check);
    }
}

/// Once the machine is finished after such a run, the reports are what `check`
/// says of each cell: a cell inside the matrix is verified exactly when `check`
/// answers that the opening holds for the cell's own claim, and rejected exactly
/// when it answers that it does not.
pub proof fn lemma_finished_run(s: State, check: spec_fn(Claim) -> Answer)
    requires
        s.wf(),
        s.finished(),
        s.agrees(check),
    ensures
        s.reports() == Seq::new(s.cells.len(), |i: int| (s.cells[i].0, s.judged(check, i))),
        forall|i: int|
            0 <= i < s.cells.len() && s.inside(i) ==> {
                &&& (#[trigger] s.reports()[i]).1 == Verdict::Verified <==> check(s.claim_at(i))
                    == Answer::Ok(true)
                &&& s.reports()[i].1 == Verdict::Rejected <==> check(s.claim_at(i)) == Answer::Ok(
                    false,
                )
            },
{
    assert(s.reports() =~= Seq::new(
        s.cells.len(),
        |i: int| (s.cells[i].0, s.judged(check, i)),
    ));
    assert forall|i: int| 0 <= i < s.cells.len() && s.inside(i) implies {
        &&& (#[trigger] s.reports()[i]).1 == Verdict::Verified <==> check(s.claim_at(i))
            == Answer::Ok(true)
        &&& s.reports()[i].1 == Verdict::Rejected <==> check(s.claim_at(i)) == Answer::Ok(false)
    } by {
        assert(s.outcomes[i] == s.judged(check, i));
    }
}

} // verus!
