//! The buffered page of rows shown on the data tab.
//!
//! A page is a bounded contiguous slice of decoded rows, held
//! column-major as display strings. The paging protocol replaces the
//! buffer wholesale when the cursor runs past its end; it never appends.

use vstd::prelude::*;

verus! {

/// The currently buffered rows of the data tab, column-major: one
/// vector of cell strings per column, each `num_rows` long.
#[derive(Clone, Debug, PartialEq, Eq)]
pub struct RowPage {
    /// The cells, one inner vector per column, in schema order.
    pub columns: Vec<Vec<String>>,
    /// How many rows the page holds; every column has this many cells.
    pub num_rows: usize,
}

impl RowPage {
    /// Every column of the page holds exactly `num_rows` cells.
    pub open spec fn wf(&self) -> bool {
        forall|i: int| 0 <= i < self.columns@.len() ==> (#[trigger] self.columns@[i])@.len()
            == self.num_rows
    }

    /// Checks that every column holds exactly `num_rows` cells.
    pub fn is_consistent(&self) -> (r: bool)
        ensures
            r == self.wf(),
    {
        let ncols = self.columns.len();
        let mut i: usize = 0;
        while i < ncols
            invariant
                i <= ncols,
                ncols == self.columns@.len(),
                forall|k: int| 0 <= k < i ==> (#[trigger] self.columns@[k])@.len()
                    == self.num_rows,
            decreases ncols - i,
        {
            if self.columns[i].len() != self.num_rows {
                return false;
            }
            i += 1;
        }
        true
    }
}

/// What a fetch of the next page yielded: a replacement page, or the
/// news that the source has no further rows.
#[derive(Clone, Debug, PartialEq, Eq)]
pub enum PageFetch {
    /// The next page, which replaces the buffer wholesale.
    Page(RowPage),
    /// The source is exhausted; the forward move becomes a no-op.
    EndOfData,
}

} // verus!
