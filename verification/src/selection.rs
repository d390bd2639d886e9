//! Circular selection state over an ordered collection.
//!
//! A `SelectionList` tracks a "current item" across a list: exactly one
//! element is selected whenever the list is non-empty, stepping past either
//! end wraps around unconditionally, and on an empty list every operation is
//! a no-op.

use vstd::prelude::*;

verus! {

/// The cursor position one step forward of `i` in a list of length `n`,
/// wrapping from the last index back to `0`.
pub open spec fn next_index(i: nat, n: nat) -> nat
    recommends
        0 < n,
        i < n,
{
    if i + 1 == n {
        0
    } else {
        i + 1
    }
}

/// The cursor position one step back of `i` in a list of length `n`,
/// wrapping from `0` to the last index.
pub open spec fn prev_index(i: nat, n: nat) -> nat
    recommends
        0 < n,
        i < n,
{
    if i == 0 {
        (n - 1) as nat
    } else {
        (i - 1) as nat
    }
}

/// `next_index` applied `k` times starting from `i`.
pub open spec fn next_index_iter(i: nat, n: nat, k: nat) -> nat
    decreases k,
{
    if k == 0 {
        i
    } else {
        next_index(next_index_iter(i, n, (k - 1) as nat), n)
    }
}

/// Law: stepping forward `k` times from index `i` in a list of length `n`
/// lands on `(i + k) % n`.
pub proof fn lemma_next_index_iter_mod(i: nat, n: nat, k: nat)
    requires
        0 < n,
        i < n,
    ensures
        next_index_iter(i, n, k) == ((i + k) % n) as nat,
    decreases k,
{
    if k == 0 {
        vstd::arithmetic::div_mod::lemma_small_mod(i, n);
    } else {
        lemma_next_index_iter_mod(i, n, (k - 1) as nat);
        let prev = next_index_iter(i, n, (k - 1) as nat);
        assert(prev == ((i + k - 1) as nat % n) as nat);
        vstd::arithmetic::div_mod::lemma_fundamental_div_mod((i + k - 1) as int, n as int);
        let q = (i + k - 1) as int / n as int;
        assert(i + k == q * n + (prev + 1));
        if prev + 1 == n {
            assert(i + k == (q + 1) * n + 0) by (nonlinear_arith)
                requires
                    i + k == q * n + n,
            ;
            vstd::arithmetic::div_mod::lemma_fundamental_div_mod_converse(
                (i + k) as int,
                n as int,
                q + 1,
                0,
            );
        } else {
            vstd::arithmetic::div_mod::lemma_fundamental_div_mod_converse(
                (i + k) as int,
                n as int,
                q,
                (prev + 1) as int,
            );
        }
    }
}

/// Law: one step back undoes one step forward, and the other way round.
pub proof fn lemma_prev_inverts_next(i: nat, n: nat)
    requires
        0 < n,
        i < n,
    ensures
        prev_index(next_index(i, n), n) == i,
        next_index(prev_index(i, n), n) == i,
{
}

/// Circular selection over an ordered sequence of `T`.
pub struct SelectionList<T> {
    items: Vec<T>,
    cursor: Option<usize>,
}

impl<T> SelectionList<T> {
    /// The items, as a mathematical sequence.
    pub closed spec fn items_seq(&self) -> Seq<T> {
        self.items@
    }

    /// The selection cursor: an index into the items, absent on an empty
    /// list.
    pub closed spec fn cursor_spec(&self) -> Option<usize> {
        self.cursor
    }

    /// The cursor is absent exactly when the list is empty, and in bounds
    /// otherwise.
    pub open spec fn wf(&self) -> bool {
        match self.cursor_spec() {
            None => self.items_seq().len() == 0,
            Some(c) => c < self.items_seq().len(),
        }
    }

    /// Builds the state with the cursor on the first element, or with no
    /// cursor when `items` is empty.
    pub fn with_items(items: Vec<T>) -> (s: Self)
        ensures
            s.wf(),
            s.items_seq() == items@,
            s.cursor_spec() == if items@.len() == 0 {
                None::<usize>
            } else {
                Some(0usize)
            },
    {
        let cursor = if items.len() == 0 {
            None
        } else {
            Some(0usize)
        };
        SelectionList { items, cursor }
    }

    /// How many items the list holds.
    pub fn len(&self) -> (n: usize)
        ensures
            n == self.items_seq().len(),
    {
        self.items.len()
    }

    /// Read access to the items, for a renderer to consume.
    pub fn items(&self) -> (v: &Vec<T>)
        ensures
            v@ == self.items_seq(),
    {
        &self.items
    }

    /// The cursor position, if any.
    pub fn selected_index(&self) -> (r: Option<usize>)
        ensures
            r == self.cursor_spec(),
    {
        self.cursor
    }

    /// The selected element: the one under the cursor, or nothing on an
    /// empty list.
    pub fn selected(&self) -> (r: Option<&T>)
        requires
            self.wf(),
        ensures
            match r {
                Some(t) => {
                    &&& self.cursor_spec() is Some
                    &&& *t == self.items_seq()[self.cursor_spec()->Some_0 as int]
                },
                None => self.items_seq().len() == 0,
            },
    {
        match self.cursor {
            Some(c) => Some(&self.items[c]),
            None => None,
        }
    }

    /// Advances the cursor circularly: from the last index it wraps to `0`;
    /// on an empty list this is a no-op.
    pub fn next(&mut self)
        requires
            old(self).wf(),
        ensures
            final(self).wf(),
            final(self).items_seq() == old(self).items_seq(),
            final(self).cursor_spec() == match old(self).cursor_spec() {
                None => None::<usize>,
                Some(c) => Some(
                    next_index(c as nat, old(self).items_seq().len()) as usize,
                ),
            },
    {
        match self.cursor {
            None => {},
            Some(c) => {
                let n = self.items.len();
                self.cursor = if c + 1 == n {
                    Some(0)
                } else {
                    Some(c + 1)
                };
            },
        }
    }

    /// Retreats the cursor circularly: from index `0` it wraps to the last
    /// index; on an empty list this is a no-op.
    pub fn previous(&mut self)
        requires
            old(self).wf(),
        ensures
            final(self).wf(),
            final(self).items_seq() == old(self).items_seq(),
            final(self).cursor_spec() == match old(self).cursor_spec() {
                None => None::<usize>,
                Some(c) => Some(
                    prev_index(c as nat, old(self).items_seq().len()) as usize,
                ),
            },
    {
        match self.cursor {
            None => {},
            Some(c) => {
                let n = self.items.len();
                self.cursor = if c == 0 {
                    Some(n - 1)
                } else {
                    Some(c - 1)
                };
            },
        }
    }
}

} // verus!
