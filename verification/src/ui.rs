//! Display-support logic: the tabs of the screen, string truncation for
//! fixed-width cells, and the windowed slice of the buffered page that
//! the data tab shows.

use vstd::prelude::*;
use vstd::string::*;

use crate::page::RowPage;

verus! {

/// How many tabs the screen has. Wraparound is always computed modulo
/// this count, never against a hand-maintained last index.
pub const TAB_COUNT: usize = 2;

/// The tabs of the screen.
#[derive(Clone, Copy, Debug, PartialEq, Eq, Structural)]
pub enum Tab {
    /// The paged row data of the file.
    Data,
    /// File metadata, schema, and per-chunk statistics.
    Metadata,
}

/// The position of each tab in the tab line.
pub open spec fn tab_index(t: Tab) -> nat {
    match t {
        Tab::Data => 0,
        Tab::Metadata => 1,
    }
}

/// The tab at each position of the tab line; positions outside the line
/// fall back to the first tab.
pub open spec fn tab_of_index(i: nat) -> Tab {
    if i == 1 {
        Tab::Metadata
    } else {
        Tab::Data
    }
}

/// The title each tab is shown under.
pub open spec fn tab_title(t: Tab) -> Seq<char> {
    match t {
        Tab::Data => "Data"@,
        Tab::Metadata => "Metadata"@,
    }
}

impl Tab {
    /// The position of this tab in the tab line.
    pub fn index(&self) -> (r: usize)
        ensures
            r == tab_index(*self),
            r < TAB_COUNT,
    {
        match self {
            Tab::Data => 0,
            Tab::Metadata => 1,
        }
    }

    /// The tab titles, in tab-line order.
    pub fn get_headers() -> (r: Vec<&'static str>)
        ensures
            r@.len() == TAB_COUNT,
            forall|i: nat| i < TAB_COUNT ==> (#[trigger] r@[i as int])@ == tab_title(
                tab_of_index(i),
            ),
    {
        let headers: Vec<&'static str> = vec!["Data", "Metadata"];
        headers
    }
}

impl Default for Tab {
    /// A session starts on the data tab.
    fn default() -> (r: Self)
        ensures
            r == Tab::Data,
    {
        Tab::Data
    }
}

impl From<usize> for Tab {
    /// The tab at a position in the tab line; out-of-line positions
    /// fall back to the first tab.
    fn from(v: usize) -> (r: Self)
        ensures
            r == tab_of_index(v as nat),
    {
        if v == 1 {
            Tab::Metadata
        } else {
            Tab::Data
        }
    }
}

impl vstd::std_specs::convert::FromSpecImpl<usize> for Tab {
    open spec fn obeys_from_spec() -> bool {
        true
    }

    open spec fn from_spec(v: usize) -> Tab {
        tab_of_index(v as nat)
    }
}

/// A string cut down to a maximum number of characters: the prefix of
/// that length when the string is longer, the string itself otherwise.
pub open spec fn masked(s: Seq<char>, max_len: nat) -> Seq<char> {
    if s.len() > max_len {
        s.subrange(0, max_len as int)
    } else {
        s
    }
}

/// Cuts a string down to at most `max_len` characters for a fixed-width
/// cell.
pub fn mask_string<'a>(s: &'a str, max_len: usize) -> (r: &'a str)
    ensures
        r@ == masked(s@, max_len as nat),
{
    if s.unicode_len() > max_len {
        s.substring_char(0, max_len)
    } else {
        s
    }
}

/// How many entries a window starting at `start` and wanting `want`
/// entries can take from `total` entries.
pub open spec fn window_len(start: nat, want: nat, total: nat) -> nat {
    if start >= total {
        0
    } else if start + want <= total {
        want
    } else {
        (total - start) as nat
    }
}

/// The visible window of a buffered page: at most `ncols` columns
/// starting at column `col`, each holding at most `nrows` cells
/// starting at row `row`, clamped to what the page holds.
pub fn batch_slice(page: &RowPage, row: usize, col: usize, nrows: usize, ncols: usize) -> (r:
    Vec<Vec<String>>)
    requires
        page.wf(),
    ensures
        r@.len() == window_len(col as nat, ncols as nat, page.columns@.len()),
        forall|i: int| 0 <= i < r@.len() ==> (#[trigger] r@[i])@.len() == window_len(
            row as nat,
            nrows as nat,
            page.num_rows as nat,
        ),
        forall|i: int, j: int|
            0 <= i < r@.len() && 0 <= j < r@[i]@.len() ==> (#[trigger] r@[i]@[j])@
                == page.columns@[col + i]@[row + j]@,
{
    let total_cols = page.columns.len();
    let width: usize = if col >= total_cols {
        0
    } else if ncols <= total_cols - col {
        ncols
    } else {
        total_cols - col
    };
    let height: usize = if row >= page.num_rows {
        0
    } else if nrows <= page.num_rows - row {
        nrows
    } else {
        page.num_rows - row
    };
    let mut out: Vec<Vec<String>> = Vec::new();
    let mut i: usize = 0;
    while i < width
        invariant
            i <= width,
            width == window_len(col as nat, ncols as nat, page.columns@.len()),
            height == window_len(row as nat, nrows as nat, page.num_rows as nat),
            total_cols == page.columns@.len(),
            width == 0 || col + width <= total_cols,
            height == 0 || row + height <= page.num_rows,
            page.wf(),
            out@.len() == i,
            forall|k: int| 0 <= k < i ==> (#[trigger] out@[k])@.len() == height,
            forall|k: int, j: int|
                0 <= k < i && 0 <= j < height ==> (#[trigger] out@[k]@[j])@
                    == page.columns@[col + k]@[row + j]@,
        decreases width - i,
    {
        let column = &page.columns[col + i];
        let mut cells: Vec<String> = Vec::new();
        let mut j: usize = 0;
        while j < height
            invariant
                j <= height,
                col + i < page.columns@.len(),
                column@.len() == page.num_rows,
                height == 0 || row + height <= page.num_rows,
                column == page.columns@[col + i],
                cells@.len() == j,
                forall|m: int| 0 <= m < j ==> (#[trigger] cells@[m])@ == column@[row + m]@,
            decreases height - j,
        {
            cells.push(column[row + j].clone());
            j += 1;
        }
        out.push(cells);
        i += 1;
    }
    out
}

} // verus!
