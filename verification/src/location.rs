use vstd::prelude::*;

verus! {

/// A half-open byte range `[start, end)` of the analysed source text.
///
/// `line` and `column` stay zero until somebody materialises them.
#[derive(Clone, Copy, Debug, PartialEq, Eq, Hash, Structural)]
pub struct Location {
    pub start: u32,
    pub end: u32,
    pub line: u32,
    pub column: u32,
}

impl Location {
    /// The zero-width location one byte past `self` (when `after`) or at its start.
    pub open spec fn collapsed(self, after: bool) -> Location {
        if after {
            Location { start: (self.end + 1) as u32, end: (self.end + 1) as u32, line: self.line, column: self.column }
        } else {
            Location { start: self.start, end: self.start, line: self.line, column: self.column }
        }
    }

    /// The location of the bytes `[start, end)`, without line or column.
    pub fn spanning(start: u32, end: u32) -> (r: Location)
        ensures
            r == (Location { start, end, line: 0, column: 0 }),
    {
        Location { start, end, line: 0, column: 0 }
    }

    /// Shrinks the range to a single point: just behind its end, or at its start.
    pub fn collapse(self, after: bool) -> (r: Location)
        requires
            after ==> self.end < u32::MAX,
        ensures
            r == self.collapsed(after),
            r.start == r.end,
            after ==> r.start == self.end + 1,
            !after ==> r.start == self.start,
    {
        let mut this = self;
        if after {
            this.end = this.end + 1;
            this.start = this.end;
            return this;
        }
        this.end = this.start;
        this
    }
}

} // verus!
