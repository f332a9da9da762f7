//! A linear undo/redo container: an append-only sequence of immutable states
//! with a cursor, where pushing while the cursor is not at the tail abandons
//! the redo branch.

use vstd::prelude::*;

verus! {

/// The mathematical model of an undo history: the chronological entries and
/// the cursor, which is `None` exactly when there are no entries.
pub ghost struct HistoryModel<T> {
    pub entries: Seq<T>,
    pub cursor: Option<int>,
}

impl<T> HistoryModel<T> {
    pub open spec fn wf(self) -> bool {
        match self.cursor {
            Option::None => self.entries.len() == 0,
            Option::Some(c) => 0 <= c < self.entries.len(),
        }
    }

    /// The entry the cursor points at, if any.
    pub open spec fn current(self) -> Option<T> {
        match self.cursor {
            Option::None => Option::None,
            Option::Some(c) => Option::Some(self.entries[c]),
        }
    }

    pub open spec fn empty() -> HistoryModel<T> {
        HistoryModel { entries: Seq::empty(), cursor: Option::None }
    }

    /// Pushing truncates everything strictly after the cursor, then appends
    /// the item and moves the cursor onto it.
    pub open spec fn pushed(self, item: T) -> HistoryModel<T> {
        match self.cursor {
            Option::None => HistoryModel { entries: seq![item], cursor: Option::Some(0int) },
            Option::Some(c) => HistoryModel {
                entries: self.entries.subrange(0, c + 1).push(item),
                cursor: Option::Some(c + 1),
            },
        }
    }

    /// The model after an undo: the cursor steps back when a predecessor
    /// exists, and nothing changes otherwise.
    pub open spec fn undone(self) -> HistoryModel<T> {
        match self.cursor {
            Option::Some(c) => if c > 0 {
                HistoryModel { entries: self.entries, cursor: Option::Some(c - 1) }
            } else {
                self
            },
            Option::None => self,
        }
    }

    /// What an undo hands back: the new current entry, or nothing at the
    /// first entry or on an empty history.
    pub open spec fn undo_result(self) -> Option<T> {
        match self.cursor {
            Option::Some(c) => if c > 0 {
                Option::Some(self.entries[c - 1])
            } else {
                Option::None
            },
            Option::None => Option::None,
        }
    }

    /// The model after a redo: the cursor steps forward when a successor
    /// exists, and nothing changes otherwise.
    pub open spec fn redone(self) -> HistoryModel<T> {
        match self.cursor {
            Option::Some(c) => if c + 1 < self.entries.len() {
                HistoryModel { entries: self.entries, cursor: Option::Some(c + 1) }
            } else {
                self
            },
            Option::None => self,
        }
    }

    /// What a redo hands back: the new current entry, or nothing at the last
    /// entry or on an empty history.
    pub open spec fn redo_result(self) -> Option<T> {
        match self.cursor {
            Option::Some(c) => if c + 1 < self.entries.len() {
                Option::Some(self.entries[c + 1])
            } else {
                Option::None
            },
            Option::None => Option::None,
        }
    }

    /// `k` undos in a row.
    pub open spec fn undone_k(self, k: nat) -> HistoryModel<T>
        decreases k,
    {
        if k == 0 {
            self
        } else {
            self.undone_k((k - 1) as nat).undone()
        }
    }

    /// `k` redos in a row.
    pub open spec fn redone_k(self, k: nat) -> HistoryModel<T>
        decreases k,
    {
        if k == 0 {
            self
        } else {
            self.redone_k((k - 1) as nat).redone()
        }
    }
}

proof fn lemma_undone_k_shape<T>(m: HistoryModel<T>, k: nat)
    requires
        m.wf(),
        m.cursor matches Option::Some(c) && k <= c,
    ensures
        m.undone_k(k).entries == m.entries,
        m.undone_k(k).cursor == Option::Some(m.cursor->0 - k),
    decreases k,
{
    if k > 0 {
        lemma_undone_k_shape(m, (k - 1) as nat);
    }
}

proof fn lemma_redone_k_shape<T>(m: HistoryModel<T>, k: nat)
    requires
        m.wf(),
        m.cursor matches Option::Some(c) && c + k < m.entries.len(),
    ensures
        m.redone_k(k).entries == m.entries,
        m.redone_k(k).cursor == Option::Some(m.cursor->0 + k),
    decreases k,
{
    if k > 0 {
        lemma_redone_k_shape(m, (k - 1) as nat);
    }
}

/// After `k` consecutive undos followed by `k` redos (`k` at most the number
/// of predecessors of the cursor), the history and in particular its current
/// entry are exactly what they were before the undos.
pub proof fn lemma_undo_redo_round_trip<T>(m: HistoryModel<T>, k: nat)
    requires
        m.wf(),
        m.cursor matches Option::Some(c) && k <= c,
    ensures
        m.undone_k(k).redone_k(k) == m,
        m.undone_k(k).redone_k(k).current() == m.current(),
{
    lemma_undone_k_shape(m, k);
    lemma_redone_k_shape(m.undone_k(k), k);
}

/// Pushing (in particular after one or more undos) abandons the redo branch:
/// a redo on the resulting history returns nothing and changes nothing.
pub proof fn lemma_push_discards_redo<T>(m: HistoryModel<T>, item: T)
    requires
        m.wf(),
    ensures
        m.pushed(item).redo_result() is None,
        m.pushed(item).redone() == m.pushed(item),
{
}

/// An undo on a freshly reset history holding its single first push returns
/// nothing and changes nothing: the first entry has no predecessor.
pub proof fn lemma_undo_after_reset_and_first_push<T>(item: T)
    ensures
        HistoryModel::<T>::empty().pushed(item).undo_result() is None,
        HistoryModel::<T>::empty().pushed(item).undone() == HistoryModel::<T>::empty().pushed(
            item,
        ),
{
}

/// A linear undo/redo stack over immutable states.
pub struct UndoHistory<T> {
    history: Vec<T>,
    current: Option<usize>,
}

impl<T> View for UndoHistory<T> {
    type V = HistoryModel<T>;

    closed spec fn view(&self) -> HistoryModel<T> {
        HistoryModel {
            entries: self.history@,
            cursor: match self.current {
                Option::Some(c) => Option::Some(c as int),
                Option::None => Option::None,
            },
        }
    }
}

impl<T> UndoHistory<T> {
    pub fn new() -> (r: Self)
        ensures
            r@ == HistoryModel::<T>::empty(),
            r@.wf(),
    {
        Self { history: Vec::new(), current: Option::None }
    }

    /// Appends `item` as the new current entry, discarding any redo branch
    /// first. Always succeeds.
    pub fn push(&mut self, item: T)
        requires
            old(self)@.wf(),
        ensures
            final(self)@ == old(self)@.pushed(item),
            final(self)@.wf(),
    {
        match self.current {
            Option::Some(current) => {
                let len = self.history.len();
                assert(current < len);
                self.history.truncate(current + 1);
            },
            Option::None => {
                self.history.clear();
            },
        }

        self.history.push(item);
        self.current = Option::Some(
            match self.current {
                Option::Some(c) => c + 1,
                Option::None => 0,
            },
        );
        assert(self@.entries =~= old(self)@.pushed(item).entries);
    }

    /// Moves the cursor back one position and returns the entry now at the
    /// cursor, or returns nothing (and changes nothing) when no predecessor
    /// exists.
    pub fn undo(&mut self) -> (r: Option<&T>)
        requires
            old(self)@.wf(),
        ensures
            final(self)@ == old(self)@.undone(),
            final(self)@.wf(),
            match r {
                Option::Some(item) => old(self)@.undo_result() == Option::Some(*item),
                Option::None => old(self)@.undo_result() is None,
            },
    {
        match self.current {
            Option::Some(current) => {
                if current > 0 {
                    self.current = Option::Some(current - 1);
                    Option::Some(&self.history[current - 1])
                } else {
                    Option::None
                }
            },
            Option::None => Option::None,
        }
    }

    /// Moves the cursor forward one position and returns the entry now at the
    /// cursor, or returns nothing (and changes nothing) when no successor
    /// exists.
    pub fn redo(&mut self) -> (r: Option<&T>)
        requires
            old(self)@.wf(),
        ensures
            final(self)@ == old(self)@.redone(),
            final(self)@.wf(),
            match r {
                Option::Some(item) => old(self)@.redo_result() == Option::Some(*item),
                Option::None => old(self)@.redo_result() is None,
            },
    {
        match self.current {
            Option::Some(current) => {
                if current < self.history.len() - 1 {
                    self.current = Option::Some(current + 1);
                    Option::Some(&self.history[current + 1])
                } else {
                    Option::None
                }
            },
            Option::None => Option::None,
        }
    }

    /// Clears all entries and invalidates the cursor.
    pub fn reset(&mut self)
        ensures
            final(self)@ == HistoryModel::<T>::empty(),
            final(self)@.wf(),
    {
        self.history.clear();
        self.current = Option::None;
        assert(self@.entries =~= Seq::<T>::empty());
    }
}

} // verus!
