//! Pipe columns: the five vertical shapes a screen column can hold, the
//! 5-row occupancy pattern each one renders as, and the collision rule
//! that decides which bird rows pass through a column unharmed.

use vstd::prelude::*;

verus! {

/// One screen column's pipe shape. Each shape leaves a two-row gap for the
/// bird; the variants are ordered by pipe code, the integer a fresh column
/// is drawn as (entropy modulo five).
///
/// * `Open` (code 0): no pipe, every row clear.
/// * `Low` (code 1): rows 0..=2 filled, gap at rows 3 and 4.
/// * `MidLow` (code 2): rows 0, 1 and 4 filled, gap at rows 2 and 3.
/// * `HighLow` (code 3): rows 0, 3 and 4 filled, gap at rows 1 and 2.
/// * `High` (code 4): rows 2..=4 filled, gap at rows 0 and 1.
#[derive(Clone, Copy, Debug, PartialEq, Eq, Structural)]
pub enum Pipe {
    Open,
    Low,
    MidLow,
    HighLow,
    High,
}

impl Pipe {
    /// The integer pipe code of this shape, in [0, 4].
    pub open spec fn code(self) -> int {
        match self {
            Pipe::Open => 0,
            Pipe::Low => 1,
            Pipe::MidLow => 2,
            Pipe::HighLow => 3,
            Pipe::High => 4,
        }
    }

    /// The shape with the given pipe code; codes outside [0, 4] give `Open`.
    pub open spec fn from_code(code: int) -> Pipe {
        if code == 1 {
            Pipe::Low
        } else if code == 2 {
            Pipe::MidLow
        } else if code == 3 {
            Pipe::HighLow
        } else if code == 4 {
            Pipe::High
        } else {
            Pipe::Open
        }
    }

    /// Whether this shape fills (lights) the given row of its column.
    pub open spec fn fills_row(self, row: int) -> bool {
        match self {
            Pipe::Open => false,
            Pipe::Low => row == 0 || row == 1 || row == 2,
            Pipe::MidLow => row == 0 || row == 1 || row == 4,
            Pipe::HighLow => row == 0 || row == 3 || row == 4,
            Pipe::High => row == 2 || row == 3 || row == 4,
        }
    }

    /// Whether a bird on the given row passes this shape unharmed: an open
    /// column is safe everywhere, and a pipe with code `c` is safe exactly
    /// on rows `5 - c` and `4 - c`.
    pub open spec fn safe_row(self, row: int) -> bool {
        self.code() == 0 || row == 5 - self.code() || row == 4 - self.code()
    }

    /// The pipe code as a machine integer.
    pub fn code_value(self) -> (c: u8)
        ensures
            c as int == self.code(),
    {
        match self {
            Pipe::Open => 0,
            Pipe::Low => 1,
            Pipe::MidLow => 2,
            Pipe::HighLow => 3,
            Pipe::High => 4,
        }
    }

    /// The shape a raw entropy word spawns: the word reduced modulo five,
    /// read as a pipe code.
    pub fn from_entropy(raw: u32) -> (p: Pipe)
        ensures
            p == Pipe::from_code(raw as int % 5),
    {
        match raw % 5 {
            0 => Pipe::Open,
            1 => Pipe::Low,
            2 => Pipe::MidLow,
            3 => Pipe::HighLow,
            _ => Pipe::High,
        }
    }

    /// Whether this shape lights the given row.
    pub fn row_filled(self, row: u8) -> (b: bool)
        requires
            row < 5,
        ensures
            b == self.fills_row(row as int),
    {
        match self {
            Pipe::Open => false,
            Pipe::Low => row <= 2,
            Pipe::MidLow => row <= 1 || row == 4,
            Pipe::HighLow => row == 0 || row >= 3,
            Pipe::High => row >= 2,
        }
    }

    /// Whether a bird on the given row passes this shape unharmed.
    pub fn row_is_safe(self, row: u8) -> (b: bool)
        requires
            row < 5,
        ensures
            b == self.safe_row(row as int),
    {
        let c = self.code_value();
        c == 0 || row == 5 - c || row == 4 - c
    }
}

/// Law: for a pipe of code `c` in {1, 2, 3, 4} the safe rows are exactly
/// `5 - c` and `4 - c`, an open column (code 0) is safe on every row, and
/// on every shape the safe rows are exactly the rows the shape leaves
/// unlit — the rendered gap and the collision rule agree.
pub proof fn lemma_safe_rows_are_gap(p: Pipe, row: int)
    requires
        0 <= row < 5,
    ensures
        p.code() == 0 ==> p.safe_row(row),
        p.code() != 0 ==> (p.safe_row(row) <==> (row == 5 - p.code() || row == 4 - p.code())),
        p.safe_row(row) <==> !p.fills_row(row),
{
}

} // verus!
