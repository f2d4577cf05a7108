//! Positions in the data matrix and its validated dimensions.

use crate::error::Error;
use core::cmp::Ordering;
use vstd::prelude::*;
use vstd::std_specs::cmp::PartialOrdSpecImpl;

verus! {

/// One cell's place in the data matrix.
///
/// Two positions are equal when row and column are equal, and they are ordered by
/// row first and by column second.
#[derive(Clone, Copy, Debug, PartialEq, Eq, Structural, Ord, Hash)]
pub struct Position {
    pub row: u32,
    pub col: u16,
}

impl Position {
    pub fn new(row: u32, col: u16) -> (position: Position)
        ensures
            position.row == row,
            position.col == col,
    {
        Position { row, col }
    }

    /// Whether `self` comes strictly before `other`: an earlier row, or the same
    /// row and an earlier column.
    pub open spec fn precedes(self, other: Position) -> bool {
        self.row < other.row || (self.row == other.row && self.col < other.col)
    }

    /// Positions are totally ordered: of two, either one comes before the other
    /// or they are equal, and never two of these at once; and what comes before
    /// an earlier position comes before a later one.
    pub proof fn lemma_total_order(a: Position, b: Position, c: Position)
        ensures
            a.precedes(b) || b.precedes(a) || a == b,
            !(a.precedes(b) && b.precedes(a)),
            !a.precedes(a),
            a.precedes(b) && b.precedes(c) ==> a.precedes(c),
    {
    }
}

impl PartialOrdSpecImpl for Position {
    open spec fn obeys_partial_cmp_spec() -> bool {
        true
    }

    open spec fn partial_cmp_spec(&self, other: &Position) -> Option<Ordering> {
        if self.precedes(*other) {
            Some(Ordering::Less)
        } else if other.precedes(*self) {
            Some(Ordering::Greater)
        } else {
            Some(Ordering::Equal)
        }
    }
}

impl PartialOrd for Position {
    fn partial_cmp(&self, other: &Position) -> (order: Option<Ordering>) {
        if self.row < other.row {
            Some(Ordering::Less)
        } else if self.row > other.row {
            Some(Ordering::Greater)
        } else if self.col < other.col {
            Some(Ordering::Less)
        } else if self.col > other.col {
            Some(Ordering::Greater)
        } else {
            Some(Ordering::Equal)
        }
    }
}

/// The shape of a block's data matrix: both counts are positive.
///
/// A value can only be made by [`Dimensions::new`], so one that exists is valid.
#[derive(Clone, Copy, Debug, PartialEq, Eq, Structural)]
pub struct Dimensions {
    rows: u16,
    cols: u16,
}

impl View for Dimensions {
    type V = (nat, nat);

    /// The number of rows, then the number of columns.
    closed spec fn view(&self) -> (nat, nat) {
        (self.rows as nat, self.cols as nat)
    }
}

impl Dimensions {
    #[verifier::type_invariant]
    spec fn positive(self) -> bool {
        self.rows > 0 && self.cols > 0
    }

    /// Number of rows.
    pub open spec fn height(self) -> nat {
        self@.0
    }

    /// Number of columns.
    pub open spec fn width(self) -> nat {
        self@.1
    }

    /// Whether `position` lies inside a matrix of this shape.
    pub open spec fn holds(self, position: Position) -> bool {
        position.row < self.height() && position.col < self.width()
    }

    /// Whether openings can be checked against a matrix of this shape: the
    /// scheme needs more than two columns.
    pub open spec fn verifiable(self) -> bool {
        self.width() > 2
    }

    /// Validates a pair of counts: a shape exists exactly when neither is zero.
    pub fn new(rows: u16, cols: u16) -> (dimensions: Option<Dimensions>)
        ensures
            dimensions is Some <==> rows > 0 && cols > 0,
            dimensions matches Some(d) ==> d.height() == rows && d.width() == cols,
    {
        if rows == 0 || cols == 0 {
            None
        } else {
            Some(Dimensions { rows, cols })
        }
    }

    /// Why no cell can be verified against a matrix with these counts, if none
    /// can: a count is zero, or there are two columns or fewer.
    pub open spec fn unfit(rows: u16, cols: u16) -> Option<Error> {
        if rows == 0 || cols == 0 {
            Some(Error::InvalidDimensions)
        } else if cols <= 2 {
            Some(Error::UnverifiableDimensions)
        } else {
            None
        }
    }

    /// Validates a pair of counts for verification: the shape that
    /// [`Dimensions::new`] gives, unless it has two columns or fewer.
    pub fn for_verification(rows: u16, cols: u16) -> (dimensions: Result<Dimensions, Error>)
        ensures
            dimensions matches Err(e) ==> Self::unfit(rows, cols) == Some(e),
            dimensions matches Ok(d) ==> Self::unfit(rows, cols) is None && d.height() == rows
                && d.width() == cols && d.verifiable(),
    {
        match Dimensions::new(rows, cols) {
            None => Err(Error::InvalidDimensions),
            Some(dimensions) => {
                if dimensions.is_verifiable() {
                    Ok(dimensions)
                } else {
                    Err(Error::UnverifiableDimensions)
                }
            },
        }
    }

    pub fn rows(&self) -> (rows: u16)
        ensures
            rows == self.height(),
            rows > 0,
    {
        proof {
            use_type_invariant(self);
        }
        self.rows
    }

    pub fn cols(&self) -> (cols: u16)
        ensures
            cols == self.width(),
            cols > 0,
    {
        proof {
            use_type_invariant(self);
        }
        self.cols
    }

    /// Tells whether `position` lies inside the matrix.
    pub fn contains(&self, position: Position) -> (inside: bool)
        ensures
            inside == self.holds(position),
    {
        position.row < self.rows as u32 && position.col < self.cols
    }

    /// Tells whether cells of a matrix of this shape can be verified at all.
    pub fn is_verifiable(&self) -> (yes: bool)
        ensures
            yes == self.verifiable(),
    {
        self.cols > 2
    }
}

} // verus!
