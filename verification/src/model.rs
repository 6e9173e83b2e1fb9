//! The process table model: an ordered sequence of snapshots plus a single
//! selection cursor. The cursor advances and retreats with wraparound, and
//! survives a wholesale replacement of the sequence by being clamped back
//! into range.

use vstd::prelude::*;
use crate::snapshot::Process;

verus! {

use vstd::arithmetic::div_mod::{
    lemma_add_mod_noop,
    lemma_mod_add_multiples_vanish,
    lemma_mod_bound,
    lemma_mod_self_0,
    lemma_small_mod,
};

/// The selection cursor after one advance over `len` rows: from `None` the
/// first row is selected; otherwise the cursor moves down one row, wrapping
/// from the last row to the first. On an empty table nothing moves.
pub open spec fn advanced_sel(sel: Option<int>, len: int) -> Option<int> {
    if len <= 0 {
        sel
    } else {
        match sel {
            None => Some(0int),
            Some(i) => if i >= len - 1 {
                Some(0int)
            } else {
                Some(i + 1)
            },
        }
    }
}

/// The selection cursor after one retreat over `len` rows: from `None` the
/// first row is selected; otherwise the cursor moves up one row, wrapping
/// from the first row to the last. On an empty table nothing moves.
pub open spec fn retreated_sel(sel: Option<int>, len: int) -> Option<int> {
    if len <= 0 {
        sel
    } else {
        match sel {
            None => Some(0int),
            Some(i) => if i == 0 {
                Some(len - 1)
            } else {
                Some(i - 1)
            },
        }
    }
}

/// The selection cursor after the table is replaced by one of `new_len`
/// rows: a cursor past the new end is clamped to the last valid row, and
/// an empty table clears the cursor.
pub open spec fn clamped_sel(sel: Option<int>, new_len: int) -> Option<int> {
    if new_len <= 0 {
        None
    } else {
        match sel {
            None => None,
            Some(i) => if i < new_len {
                Some(i)
            } else {
                Some(new_len - 1)
            },
        }
    }
}

/// A cursor is valid for a table of `len` rows when it is absent or names
/// an existing row.
pub open spec fn valid_sel(sel: Option<int>, len: int) -> bool {
    match sel {
        None => true,
        Some(i) => 0 <= i < len,
    }
}

/// The cursor after `k` successive advances over a table of `len` rows.
pub open spec fn advanced_sel_iter(sel: Option<int>, len: int, k: nat) -> Option<int>
    decreases k,
{
    if k == 0 {
        sel
    } else {
        advanced_sel(advanced_sel_iter(sel, len, (k - 1) as nat), len)
    }
}

/// From a selected row, the `k`-th advance over a non-empty table lands on
/// the row `k` further down, modulo the table length.
pub proof fn lemma_advance_iter_from_index(i: int, len: int, k: nat)
    requires
        0 <= i < len,
    ensures
        advanced_sel_iter(Some(i), len, k) == Some((i + k) % len),
    decreases k,
{
    if k == 0 {
        lemma_small_mod(i as nat, len as nat);
    } else {
        lemma_advance_iter_from_index(i, len, (k - 1) as nat);
        let r = (i + k - 1) % len;
        lemma_mod_bound(i + k - 1, len);
        if len == 1 {
            lemma_mod_bound(i + k, 1);
        } else {
            lemma_add_mod_noop(i + k - 1, 1, len);
            lemma_small_mod(1nat, len as nat);
            if r == len - 1 {
                lemma_mod_self_0(len);
                assert((r + 1) % len == 0);
            } else {
                lemma_small_mod((r + 1) as nat, len as nat);
            }
        }
    }
}

/// The first advance from an empty selection lands on row 0; after that the
/// cursor behaves as if it had started there.
proof fn lemma_advance_from_none_shift(len: int, k: nat)
    requires
        1 <= len,
        1 <= k,
    ensures
        advanced_sel_iter(None, len, k) == advanced_sel_iter(Some(0int), len, (k - 1) as nat),
    decreases k,
{
    if k == 1 {
        assert(advanced_sel_iter(None, len, 0nat) == None::<int>);
        assert(advanced_sel_iter(Some(0int), len, 0nat) == Some(0int));
    } else {
        lemma_advance_from_none_shift(len, (k - 1) as nat);
        assert(advanced_sel_iter(None, len, k) == advanced_sel(
            advanced_sel_iter(None, len, (k - 1) as nat),
            len,
        ));
        assert(advanced_sel_iter(Some(0int), len, (k - 1) as nat) == advanced_sel(
            advanced_sel_iter(Some(0int), len, (k - 2) as nat),
            len,
        ));
    }
}

/// From an empty selection over a non-empty table, the `k`-th advance lands
/// on row `(k - 1) % len`: the first advance selects row 0, the following
/// advances walk down the table, and every further `len` advances return the
/// cursor to row 0. In particular a cursor only returns to row 0 after
/// 1, 1 + len, 1 + 2 * len, ... advances.
pub proof fn lemma_advance_iter_from_none(len: int, k: nat)
    requires
        1 <= len,
        1 <= k,
    ensures
        advanced_sel_iter(None, len, k) == Some((k - 1) % len),
{
    lemma_advance_from_none_shift(len, k);
    lemma_advance_iter_from_index(0, len, (k - 1) as nat);
}

/// Full wraparound cycle: advancing the cursor exactly as many times as the
/// table has rows returns it to the row it started on.
pub proof fn lemma_advance_full_cycle(i: int, len: int)
    requires
        0 <= i < len,
    ensures
        advanced_sel_iter(Some(i), len, len as nat) == Some(i),
{
    lemma_advance_iter_from_index(i, len, len as nat);
    lemma_mod_add_multiples_vanish(i, len);
    lemma_small_mod(i as nat, len as nat);
}

/// Replacing the table with a capture of the same length — in particular
/// with an identical one — leaves a valid cursor exactly where it was, so
/// any number of refreshes with the same capture never moves the selection.
pub proof fn lemma_replace_same_length_keeps_sel(sel: Option<int>, len: int)
    requires
        valid_sel(sel, len),
    ensures
        clamped_sel(sel, len) == sel,
{
}

/// Clamping never leaves the cursor past the last row of the new table,
/// however many rows it pointed into before: replacing the capture always
/// restores well-formedness.
pub proof fn lemma_clamped_sel_valid(sel: Option<int>, new_len: int)
    requires
        sel matches Some(i) ==> i >= 0,
    ensures
        valid_sel(clamped_sel(sel, new_len), new_len),
{
}

/// A retreat from row 0 over a non-empty table wraps to the last row.
pub proof fn lemma_retreat_wraps_to_last(len: int)
    requires
        1 <= len,
    ensures
        retreated_sel(Some(0int), len) == Some(len - 1),
{
}

/// The table model: the current capture's snapshots in order, and the
/// selection cursor.
pub struct App {
    processes: Vec<Process>,
    selected: Option<usize>,
}

impl App {
    /// The rows of the current capture, in order.
    pub closed spec fn rows(&self) -> Seq<Process> {
        self.processes@
    }

    /// The selection cursor as a mathematical index.
    pub closed spec fn sel(&self) -> Option<int> {
        match self.selected {
            None => None,
            Some(i) => Some(i as int),
        }
    }

    /// Well-formedness: the cursor, when present, names an existing row.
    pub open spec fn wf(&self) -> bool {
        valid_sel(self.sel(), self.rows().len() as int)
    }

    /// Builds a model over a fresh capture with nothing selected.
    pub fn new(processes: Vec<Process>) -> (a: App)
        ensures
            a.wf(),
            a.rows() == processes@,
            a.sel() is None,
    {
        App { processes, selected: None }
    }

    /// The number of rows.
    pub fn len(&self) -> (n: usize)
        ensures
            n == self.rows().len(),
    {
        self.processes.len()
    }

    /// The selection cursor, for the renderer.
    pub fn selected(&self) -> (s: Option<usize>)
        ensures
            match s {
                None => self.sel() is None,
                Some(i) => self.sel() == Some(i as int),
            },
    {
        self.selected
    }

    /// The row at index `i`.
    pub fn row(&self, i: usize) -> (p: &Process)
        requires
            i < self.rows().len(),
        ensures
            *p == self.rows()[i as int],
    {
        &self.processes[i]
    }

    /// Moves the cursor down one row, wrapping from the last row to the
    /// first; from `None` it selects the first row. No-op on an empty table.
    pub fn next(&mut self)
        requires
            old(self).wf(),
        ensures
            final(self).wf(),
            final(self).rows() == old(self).rows(),
            final(self).sel() == advanced_sel(old(self).sel(), old(self).rows().len() as int),
    {
        if self.processes.len() == 0 {
            return;
        }
        let i: usize = match self.selected {
            Some(i) => {
                if i >= self.processes.len() - 1 {
                    0
                } else {
                    i + 1
                }
            },
            None => 0,
        };
        self.selected = Some(i);
    }

    /// Moves the cursor up one row, wrapping from the first row to the
    /// last; from `None` it selects the first row. No-op on an empty table.
    pub fn previous(&mut self)
        requires
            old(self).wf(),
        ensures
            final(self).wf(),
            final(self).rows() == old(self).rows(),
            final(self).sel() == retreated_sel(old(self).sel(), old(self).rows().len() as int),
    {
        if self.processes.len() == 0 {
            return;
        }
        let i: usize = match self.selected {
            Some(i) => {
                if i == 0 {
                    self.processes.len() - 1
                } else {
                    i - 1
                }
            },
            None => 0,
        };
        self.selected = Some(i);
    }

    /// Swaps in a freshly captured sequence. A cursor that the new sequence
    /// no longer covers is clamped to the last valid row, or cleared when
    /// the new sequence is empty.
    pub fn replace(&mut self, processes: Vec<Process>)
        requires
            old(self).wf(),
        ensures
            final(self).wf(),
            final(self).rows() == processes@,
            final(self).sel() == clamped_sel(old(self).sel(), processes@.len() as int),
    {
        let new_len: usize = processes.len();
        self.processes = processes;
        if new_len == 0 {
            self.selected = None;
        } else {
            match self.selected {
                Some(i) => {
                    if i >= new_len {
                        self.selected = Some(new_len - 1);
                    }
                },
                None => {},
            }
        }
    }
}

} // verus!
