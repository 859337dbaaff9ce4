//! The selection store: an ordered sequence of records, the filter labels
//! shown beside them, and a cyclic cursor over the records.

use vstd::prelude::*;
use vstd::string::*;

verus! {

/// The cursor after one step forward over `n` records: an unset cursor goes to
/// the first record, a set one to the next, wrapping after the last. Over no
/// records nothing moves.
pub open spec fn advanced(n: nat, c: Option<nat>) -> Option<nat> {
    if n == 0 {
        c
    } else {
        match c {
            None => Some(0),
            Some(i) => Some(((i + 1) % n) as nat),
        }
    }
}

/// The cursor after one step back over `n` records: an unset cursor goes to the
/// first record, the first record to the last, any other to the one before.
/// Over no records nothing moves.
pub open spec fn retreated(n: nat, c: Option<nat>) -> Option<nat> {
    if n == 0 {
        c
    } else {
        match c {
            None => Some(0),
            Some(i) => if i == 0 {
                Some((n - 1) as nat)
            } else {
                Some((i - 1) as nat)
            },
        }
    }
}

/// A cursor is unset or points at one of `n` records.
pub open spec fn cursor_in_range(n: nat, c: Option<nat>) -> bool {
    match c {
        None => true,
        Some(i) => i < n,
    }
}

/// The mathematical value of an executable cursor.
pub open spec fn cursor_value(c: Option<usize>) -> Option<nat> {
    match c {
        None => None,
        Some(i) => Some(i as nat),
    }
}

/// The cursor after `k` steps forward over `n` records.
pub open spec fn advanced_times(n: nat, c: Option<nat>, k: nat) -> Option<nat>
    decreases k,
{
    if k == 0 {
        c
    } else {
        advanced(n, advanced_times(n, c, (k - 1) as nat))
    }
}

/// The cursor after a sequence of steps over `n` records, `true` standing for
/// a step forward and `false` for a step back.
pub open spec fn stepped(n: nat, c: Option<nat>, moves: Seq<bool>) -> Option<nat>
    decreases moves.len(),
{
    if moves.len() == 0 {
        c
    } else {
        let next = if moves[0] {
            advanced(n, c)
        } else {
            retreated(n, c)
        };
        stepped(n, next, moves.drop_first())
    }
}

/// From a record `i`, `k` steps forward land on record `(i + k) mod n`.
pub proof fn lemma_advanced_times_mod(n: nat, i: nat, k: nat)
    requires
        i < n,
    ensures
        advanced_times(n, Some(i), k) == Some(((i + k) % n) as nat),
    decreases k,
{
    if k == 0 {
        vstd::arithmetic::div_mod::lemma_small_mod(i, n);
    } else {
        lemma_advanced_times_mod(n, i, (k - 1) as nat);
        vstd::arithmetic::div_mod::lemma_add_mod_noop_right(1, (i + k - 1) as int, n as int);
    }
}

/// Once a step forward has set the cursor, `n` more steps over `n` records
/// bring it back to the same record.
pub proof fn lemma_advance_full_cycle(n: nat, c: Option<nat>)
    requires
        n > 0,
        cursor_in_range(n, c),
    ensures
        advanced_times(n, advanced(n, c), n) == advanced(n, c),
{
    let j: nat = match c {
        None => 0,
        Some(i) => ((i + 1) % n) as nat,
    };
    assert(advanced(n, c) == Some(j));
    lemma_advanced_times_mod(n, j, n);
    vstd::arithmetic::div_mod::lemma_mod_add_multiples_vanish(j as int, n as int);
    vstd::arithmetic::div_mod::lemma_small_mod(j, n);
}

/// Over records, a step back undoes a step forward from a set cursor, and a
/// step forward undoes a step back.
pub proof fn lemma_retreat_undoes_advance(n: nat, i: nat)
    requires
        i < n,
    ensures
        retreated(n, advanced(n, Some(i))) == Some(i),
        advanced(n, retreated(n, Some(i))) == Some(i),
{
    if i + 1 < n {
        vstd::arithmetic::div_mod::lemma_small_mod(i + 1, n);
    } else {
        vstd::arithmetic::div_mod::lemma_mod_self_0(n as int);
    }
    if i == 0 {
        vstd::arithmetic::div_mod::lemma_mod_self_0(n as int);
    } else {
        vstd::arithmetic::div_mod::lemma_small_mod(i, n);
    }
}

/// Over no records, no sequence of steps moves the cursor: an unset cursor
/// stays unset.
pub proof fn lemma_empty_never_moves(c: Option<nat>, moves: Seq<bool>)
    ensures
        stepped(0, c, moves) == c,
    decreases moves.len(),
{
    if moves.len() > 0 {
        lemma_empty_never_moves(c, moves.drop_first());
    }
}

/// Every sequence of steps keeps the cursor unset or on a record.
pub proof fn lemma_steps_stay_in_range(n: nat, c: Option<nat>, moves: Seq<bool>)
    requires
        cursor_in_range(n, c),
    ensures
        cursor_in_range(n, stepped(n, c, moves)),
    decreases moves.len(),
{
    if moves.len() > 0 {
        let next = if moves[0] {
            advanced(n, c)
        } else {
            retreated(n, c)
        };
        if n > 0 {
            if let Some(i) = c {
                vstd::arithmetic::div_mod::lemma_mod_bound((i + 1) as int, n as int);
            }
        }
        assert(cursor_in_range(n, next));
        lemma_steps_stay_in_range(n, next, moves.drop_first());
    }
}

/// The sample filter labels.
pub open spec fn sample_filters() -> Seq<Seq<char>> {
    seq!["Team Elric"@, "Assigned to Me"@, "Frontline"@]
}

/// The sample tickets: identifier, title, assignee and status.
pub open spec fn sample_records() -> Seq<Seq<Seq<char>>> {
    seq![
        seq!["JT-42"@, "Create new main layout"@, "Alberto Romero"@, "Backlog"@],
        seq!["JT-69"@, "Integration tests"@, "Alberto Romero"@, "In Progress"@],
        seq!["JT-42"@, "Mock Database"@, "Alberto Romero"@, "Backlog"@],
        seq!["JT-124"@, "Migrate to React Navigator v6"@, "Huichops"@, "Done"@],
    ]
}

/// Records with their text fields, filter labels, and the selected record.
pub struct App {
    filters: Vec<String>,
    rows: Vec<Vec<String>>,
    selected: Option<usize>,
}

impl App {
    /// The records, each as its sequence of field texts.
    pub closed spec fn record_view(&self) -> Seq<Seq<Seq<char>>> {
        self.rows.deep_view()
    }

    /// The filter labels.
    pub closed spec fn filter_view(&self) -> Seq<Seq<char>> {
        self.filters.deep_view()
    }

    /// The selected record's index, if any.
    pub closed spec fn cursor(&self) -> Option<nat> {
        cursor_value(self.selected)
    }

    /// The number of records.
    pub open spec fn len(&self) -> nat {
        self.record_view().len()
    }

    /// The cursor is unset or points at a record.
    pub open spec fn wf(&self) -> bool {
        cursor_in_range(self.len(), self.cursor())
    }

    /// A store over the given labels and records; the first record is
    /// selected, and with no records nothing is.
    pub fn from_records(filters: Vec<String>, rows: Vec<Vec<String>>) -> (r: App)
        ensures
            r.wf(),
            r.filter_view() == filters.deep_view(),
            r.record_view() == rows.deep_view(),
            r.cursor() == (if rows@.len() == 0 {
                None::<nat>
            } else {
                Some(0nat)
            }),
    {
        let selected = if rows.len() == 0 {
            None
        } else {
            Some(0)
        };
        App { filters, rows, selected }
    }

    /// The board's sample data: three filter labels and four tickets of four
    /// fields each, the first selected.
    pub fn new() -> (r: App)
        ensures
            r.wf(),
            r.filter_view() == sample_filters(),
            r.record_view() == sample_records(),
            r.cursor() == Some(0nat),
    {
        let filters = vec![
            String::from_str("Team Elric"),
            String::from_str("Assigned to Me"),
            String::from_str("Frontline"),
        ];
        let rows = vec![
            vec![
                String::from_str("JT-42"),
                String::from_str("Create new main layout"),
                String::from_str("Alberto Romero"),
                String::from_str("Backlog"),
            ],
            vec![
                String::from_str("JT-69"),
                String::from_str("Integration tests"),
                String::from_str("Alberto Romero"),
                String::from_str("In Progress"),
            ],
            vec![
                String::from_str("JT-42"),
                String::from_str("Mock Database"),
                String::from_str("Alberto Romero"),
                String::from_str("Backlog"),
            ],
            vec![
                String::from_str("JT-124"),
                String::from_str("Migrate to React Navigator v6"),
                String::from_str("Huichops"),
                String::from_str("Done"),
            ],
        ];
        assert(filters.deep_view() =~= sample_filters());
        assert(rows.deep_view() =~~= sample_records());
        App::from_records(filters, rows)
    }

    /// The selected record's index, if any.
    pub fn current(&self) -> (r: Option<usize>)
        ensures
            cursor_value(r) == self.cursor(),
    {
        self.selected
    }

    /// The records.
    pub fn records(&self) -> (r: &Vec<Vec<String>>)
        ensures
            r.deep_view() == self.record_view(),
    {
        &self.rows
    }

    /// The filter labels.
    pub fn filters(&self) -> (r: &Vec<String>)
        ensures
            r.deep_view() == self.filter_view(),
    {
        &self.filters
    }

    /// Puts the cursor at `index`, or unsets it.
    pub fn select(&mut self, index: Option<usize>)
        requires
            cursor_in_range(old(self).len(), cursor_value(index)),
        ensures
            final(self).wf(),
            final(self).cursor() == cursor_value(index),
            final(self).record_view() == old(self).record_view(),
            final(self).filter_view() == old(self).filter_view(),
    {
        self.selected = index;
    }

    /// Moves the cursor one record forward, wrapping after the last.
    pub fn next(&mut self)
        requires
            old(self).wf(),
        ensures
            final(self).wf(),
            final(self).cursor() == advanced(old(self).len(), old(self).cursor()),
            final(self).record_view() == old(self).record_view(),
            final(self).filter_view() == old(self).filter_view(),
    {
        let n = self.rows.len();
        if n == 0 {
            return;
        }
        let i: usize = match self.selected {
            Some(i) => if i >= n - 1 {
                0
            } else {
                i + 1
            },
            None => 0,
        };
        proof {
            if let Some(j) = self.selected {
                if j + 1 < n {
                    vstd::arithmetic::div_mod::lemma_small_mod((j + 1) as nat, n as nat);
                } else {
                    vstd::arithmetic::div_mod::lemma_mod_self_0(n as int);
                }
            }
        }
        self.selected = Some(i);
    }

    /// Moves the cursor one record back, wrapping before the first.
    pub fn previous(&mut self)
        requires
            old(self).wf(),
        ensures
            final(self).wf(),
            final(self).cursor() == retreated(old(self).len(), old(self).cursor()),
            final(self).record_view() == old(self).record_view(),
            final(self).filter_view() == old(self).filter_view(),
    {
        let n = self.rows.len();
        if n == 0 {
            return;
        }
        let i: usize = match self.selected {
            Some(i) => if i == 0 {
                n - 1
            } else {
                i - 1
            },
            None => 0,
        };
        self.selected = Some(i);
    }
}

} // verus!
