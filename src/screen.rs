//! What the main screen is made of, short of painting it: the fixed layout
//! proportions and the height of each table row.

use vstd::prelude::*;
use vstd::string::*;

verus! {

/// Cells of margin around the two panes.
pub const SCREEN_MARGIN: u16 = 2;

/// Share of the width, in percent, of the filter pane on the left.
pub const FILTER_PANE_PERCENT: u16 = 25;

/// Share of the width, in percent, of the record table on the right.
pub const TABLE_PANE_PERCENT: u16 = 75;

/// Share of the table's width, in percent, of each of its four columns.
pub const COLUMN_PERCENTS: [u16; 4] = [10, 30, 15, 10];

/// Cells between two table columns.
pub const COLUMN_SPACING: u16 = 5;

/// The number of line breaks in a text.
pub open spec fn newline_count(s: Seq<char>) -> nat
    decreases s.len(),
{
    if s.len() == 0 {
        0
    } else {
        newline_count(s.drop_last()) + if s.last() == '\n' {
            1nat
        } else {
            0nat
        }
    }
}

/// The most line breaks in any one of the cells, 0 with no cells.
pub open spec fn max_newlines(cells: Seq<Seq<char>>) -> nat
    decreases cells.len(),
{
    if cells.len() == 0 {
        0
    } else {
        let rest = max_newlines(cells.drop_last());
        let last = newline_count(cells.last());
        if last > rest {
            last
        } else {
            rest
        }
    }
}

proof fn lemma_newline_count_bound(s: Seq<char>)
    ensures
        newline_count(s) <= s.len(),
    decreases s.len(),
{
    if s.len() > 0 {
        lemma_newline_count_bound(s.drop_last());
    }
}

/// The main screen: the filter pane beside the record table.
pub struct MainScreen {}

impl MainScreen {
    /// The main screen; it holds nothing of its own.
    pub fn new() -> (r: MainScreen) {
        MainScreen {}
    }
}

/// Counts the line breaks in a text.
fn newlines(s: &String) -> (r: usize)
    ensures
        r == newline_count(s@),
{
    let text = s.as_str();
    let n = text.unicode_len();
    let mut i: usize = 0;
    let mut count: usize = 0;
    while i < n
        invariant
            i <= n,
            n == s@.len(),
            text@ == s@,
            count == newline_count(s@.take(i as int)),
            count <= i,
        decreases n - i,
    {
        let c = text.get_char(i);
        assert(s@.take(i + 1).drop_last() == s@.take(i as int));
        if c == '\n' {
            count = count + 1;
        }
        i = i + 1;
    }
    assert(s@.take(n as int) == s@);
    count
}

/// The height of a table row in lines: one more than the most line breaks in
/// any of its cells.
pub fn row_height(cells: &Vec<String>) -> (r: usize)
    requires
        forall|i: int| 0 <= i < cells@.len() ==> (#[trigger] cells@[i])@.len() < usize::MAX,
    ensures
        r == max_newlines(cells.deep_view()) + 1,
{
    let mut most: usize = 0;
    let mut i: usize = 0;
    while i < cells.len()
        invariant
            i <= cells@.len(),
            forall|j: int| 0 <= j < cells@.len() ==> (#[trigger] cells@[j])@.len() < usize::MAX,
            most == max_newlines(cells.deep_view().take(i as int)),
            most < usize::MAX,
        decreases cells@.len() - i,
    {
        let k = newlines(&cells[i]);
        proof {
            lemma_newline_count_bound(cells@[i as int]@);
            assert(cells.deep_view().take(i + 1).drop_last() == cells.deep_view().take(i as int));
        }
        if k > most {
            most = k;
        }
        i = i + 1;
    }
    assert(cells.deep_view().take(cells@.len() as int) == cells.deep_view());
    most + 1
}

} // verus!
