//! The record store and the selection model.

use vstd::prelude::*;

verus! {

use vstd::arithmetic::div_mod::{
    lemma_add_mod_noop,
    lemma_mod_bound,
    lemma_mod_self_0,
    lemma_small_mod,
};

/// One recipe record. Gravity readings are carried as display text,
/// `[initial, final]`; the store never interprets them, it only renders them.
pub struct Brew {
    pub name: String,
    pub rating: u8,
    pub description: String,
    pub ingredients: Vec<String>,
    pub method: Vec<String>,
    pub gravity: Vec<String>,
}

impl Brew {
    /// A record is well formed when it carries exactly the two gravity
    /// readings.
    pub open spec fn wf(&self) -> bool {
        self.gravity@.len() == 2
    }
}

/// The record store: the ordered set of recipes, immutable once loaded.
pub struct Brews {
    pub brews: Vec<Brew>,
}

/// A list of items together with the optional index of the highlighted one.
pub struct StatefulList<T> {
    pub selected: Option<usize>,
    pub items: Vec<T>,
}

/// Where the highlight stands after one step forward over `n` items:
/// nothing highlighted becomes the first item, the last item wraps to the
/// first, and an empty list is left untouched.
pub open spec fn next_selection(sel: Option<int>, n: int) -> Option<int> {
    if n <= 0 {
        sel
    } else {
        match sel {
            None => Some(0int),
            Some(i) => Some(if i >= n - 1 { 0int } else { i + 1 }),
        }
    }
}

/// Where the highlight stands after one step backward over `n` items:
/// nothing highlighted becomes the first item, the first item wraps to the
/// last, and an empty list is left untouched.
pub open spec fn prev_selection(sel: Option<int>, n: int) -> Option<int> {
    if n <= 0 {
        sel
    } else {
        match sel {
            None => Some(0int),
            Some(i) => Some(if i == 0 { n - 1 } else { i - 1 }),
        }
    }
}

impl<T> StatefulList<T> {
    /// The highlighted index as a mathematical value.
    pub open spec fn sel(&self) -> Option<int> {
        match self.selected {
            None => None,
            Some(i) => Some(i as int),
        }
    }

    /// The highlight, when present, points into the list.
    pub open spec fn wf(&self) -> bool {
        match self.selected {
            None => true,
            Some(i) => i < self.items.len(),
        }
    }

    /// A fresh list: all items present, nothing highlighted.
    pub fn with_items(items: Vec<T>) -> (list: StatefulList<T>)
        ensures
            list.items == items,
            list.selected is None,
    {
        StatefulList { selected: None, items }
    }

    /// Move the highlight one row down, wrapping from the last row to the
    /// first; on an empty list this is a no-op.
    pub fn next(&mut self)
        ensures
            final(self).items == old(self).items,
            final(self).sel() == next_selection(old(self).sel(), old(self).items.len() as int),
            old(self).wf() ==> final(self).wf(),
    {
        if self.items.len() > 0 {
            let i: usize = match self.selected {
                Some(i) => {
                    if i >= self.items.len() - 1 {
                        0
                    } else {
                        i + 1
                    }
                },
                None => 0,
            };
            self.selected = Some(i);
        }
    }

    /// Move the highlight one row up, wrapping from the first row to the
    /// last; on an empty list this is a no-op.
    pub fn previous(&mut self)
        ensures
            final(self).items == old(self).items,
            final(self).sel() == prev_selection(old(self).sel(), old(self).items.len() as int),
            old(self).wf() ==> final(self).wf(),
    {
        if self.items.len() > 0 {
            let i: usize = match self.selected {
                Some(i) => {
                    if i == 0 {
                        self.items.len() - 1
                    } else {
                        i - 1
                    }
                },
                None => 0,
            };
            self.selected = Some(i);
        }
    }

    /// Clear the highlight; the items are untouched.
    pub fn unselect(&mut self)
        ensures
            final(self).items == old(self).items,
            final(self).selected is None,
    {
        self.selected = None;
    }
}

/// The highlight after `k` forward steps over `n` items, starting with
/// nothing highlighted.
pub open spec fn selection_after_nexts(k: nat, n: int) -> Option<int>
    decreases k,
{
    if k == 0 {
        None
    } else {
        next_selection(selection_after_nexts((k - 1) as nat, n), n)
    }
}

/// The highlight after `k` backward steps over `n` items, starting with
/// nothing highlighted.
pub open spec fn selection_after_prevs(k: nat, n: int) -> Option<int>
    decreases k,
{
    if k == 0 {
        None
    } else {
        prev_selection(selection_after_prevs((k - 1) as nat, n), n)
    }
}

/// Taking a number's successor steps its remainder forward by one, wrapping
/// to zero at the divisor.
proof fn lemma_mod_succ(x: int, n: int)
    requires
        n >= 1,
        x >= 0,
    ensures
        (x + 1) % n == (if x % n == n - 1 {
            0int
        } else {
            x % n + 1
        }),
{
    lemma_mod_bound(x, n);
    lemma_add_mod_noop(x, 1, n);
    if n == 1 {
        lemma_mod_bound(x + 1, n);
        lemma_mod_bound(1, n);
    } else {
        lemma_small_mod(1nat, n as nat);
        if x % n == n - 1 {
            lemma_mod_self_0(n);
        } else {
            lemma_small_mod((x % n + 1) as nat, n as nat);
        }
    }
}

/// Over a non-empty list, any run of forward steps from a fresh state
/// cycles through every index in order: the `k`-th step lands on
/// `(k - 1) % n`, so the highlight visits `0, 1, ..., n - 1` and wraps back
/// to `0` right after `n - 1`.
pub proof fn lemma_next_cycles(k: nat, n: int)
    requires
        n >= 1,
        k >= 1,
    ensures
        selection_after_nexts(k, n) == Some(((k - 1) as int) % n),
    decreases k,
{
    if k == 1 {
        lemma_small_mod(0nat, n as nat);
    } else {
        lemma_next_cycles((k - 1) as nat, n);
        let x = (k - 2) as int;
        lemma_mod_bound(x, n);
        lemma_mod_succ(x, n);
    }
}

/// Over a non-empty list, any run of backward steps from a fresh state
/// cycles through every index in reverse: the `k`-th step lands on
/// `(n - (k - 1) % n) % n`, so the highlight starts at `0`, wraps to
/// `n - 1`, and walks down to `0` again every `n` steps.
pub proof fn lemma_previous_cycles(k: nat, n: int)
    requires
        n >= 1,
        k >= 1,
    ensures
        selection_after_prevs(k, n) == Some((n - ((k - 1) as int) % n) % n),
    decreases k,
{
    lemma_mod_self_0(n);
    if k == 1 {
        lemma_small_mod(0nat, n as nat);
    } else {
        lemma_previous_cycles((k - 1) as nat, n);
        let x = (k - 2) as int;
        lemma_mod_bound(x, n);
        lemma_mod_succ(x, n);
        let r = x % n;
        if r == 0 {
            if n > 1 {
                lemma_small_mod((n - 1) as nat, n as nat);
            }
        } else {
            lemma_small_mod((n - r) as nat, n as nat);
            if r == n - 1 {
            } else {
                lemma_small_mod((n - r - 1) as nat, n as nat);
            }
        }
    }
}

/// Clearing the highlight and then stepping in either direction always
/// lands on the first record, over any non-empty list.
pub proof fn lemma_unselect_then_step(n: int)
    requires
        n >= 1,
    ensures
        next_selection(None, n) == Some(0int),
        prev_selection(None, n) == Some(0int),
{
}

} // verus!
