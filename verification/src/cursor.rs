//! The two cursors that every row iterator keeps over its fixed array, and
//! the laws of walking it from either end.

use vstd::prelude::*;

verus! {

/// Where an iterator stands in an array of `total` rows: `front` rows have
/// left at the front and `back` rows at the back.
pub struct Span {
    pub total: nat,
    pub front: nat,
    pub back: nat,
}

/// One move of an iterator: the `n`-th row from the front, or from the back.
pub enum Move {
    Nth(nat),
    NthBack(nat),
}

impl Span {
    /// The span over a whole array, nothing consumed.
    pub open spec fn fresh(total: nat) -> Span {
        Span { total, front: 0, back: 0 }
    }

    /// The two ends have not crossed.
    pub open spec fn valid(self) -> bool {
        self.front + self.back <= self.total
    }

    /// The index one past the last row that is still to come.
    pub open spec fn end(self) -> nat {
        if self.back <= self.total {
            (self.total - self.back) as nat
        } else {
            0
        }
    }

    /// How many rows are still to come.
    pub open spec fn remaining(self) -> nat {
        if self.valid() {
            (self.total - self.front - self.back) as nat
        } else {
            0
        }
    }

    /// The span with nothing left, its back end where it was.
    pub open spec fn exhausted(self) -> Span {
        Span { total: self.total, front: self.end(), back: self.back }
    }

    /// The span after skipping `n` rows and taking the next one at the front.
    /// Asking beyond what is left exhausts the span.
    pub open spec fn after_nth(self, n: nat) -> Span {
        if n < self.remaining() {
            Span { total: self.total, front: self.front + n + 1, back: self.back }
        } else {
            self.exhausted()
        }
    }

    /// The index that `after_nth` takes, if any.
    pub open spec fn nth_index(self, n: nat) -> Option<nat> {
        if n < self.remaining() {
            Some(self.front + n)
        } else {
            None
        }
    }

    /// The span after skipping `n` rows and taking the next one at the back.
    /// Asking beyond what is left exhausts the span.
    pub open spec fn after_nth_back(self, n: nat) -> Span {
        if n < self.remaining() {
            Span { total: self.total, front: self.front, back: self.back + n + 1 }
        } else {
            self.exhausted()
        }
    }

    /// The index that `after_nth_back` takes, if any.
    pub open spec fn nth_back_index(self, n: nat) -> Option<nat> {
        if n < self.remaining() {
            Some((self.end() - n - 1) as nat)
        } else {
            None
        }
    }

    /// The span after one move.
    pub open spec fn after(self, m: Move) -> Span {
        match m {
            Move::Nth(n) => self.after_nth(n),
            Move::NthBack(n) => self.after_nth_back(n),
        }
    }

    /// The span after a run of moves, first to last.
    pub open spec fn after_all(self, moves: Seq<Move>) -> Span
        decreases moves.len(),
    {
        if moves.len() == 0 {
            self
        } else {
            self.after(moves[0]).after_all(moves.skip(1))
        }
    }

    /// The indices that come out when the front is taken until nothing is
    /// left, in the order in which they come.
    pub open spec fn forward(self) -> Seq<nat>
        decreases self.remaining(),
    {
        match self.nth_index(0) {
            Some(i) => seq![i] + self.after_nth(0).forward(),
            None => Seq::empty(),
        }
    }

    /// The indices that come out when the back is taken until nothing is
    /// left, in the order in which they come.
    pub open spec fn backward(self) -> Seq<nat>
        decreases self.remaining(),
    {
        match self.nth_back_index(0) {
            Some(i) => seq![i] + self.after_nth_back(0).backward(),
            None => Seq::empty(),
        }
    }

    /// Taking the front until nothing is left yields the span's indices in
    /// rising order.
    pub proof fn lemma_forward_rises(self)
        requires
            self.valid(),
        ensures
            self.forward().len() == self.remaining(),
            forall|i: int| 0 <= i < self.remaining() ==> self.forward()[i] == self.front + i,
        decreases self.remaining(),
    {
        if self.remaining() > 0 {
            let rest = self.after_nth(0);
            rest.lemma_forward_rises();
            assert forall|i: int| 0 <= i < self.remaining() implies self.forward()[i] == self.front
                + i by {
                if i > 0 {
                    assert(self.forward()[i] == rest.forward()[i - 1]);
                }
            }
        }
    }

    /// Taking the back until nothing is left yields the span's indices in
    /// falling order.
    pub proof fn lemma_backward_falls(self)
        requires
            self.valid(),
        ensures
            self.backward().len() == self.remaining(),
            forall|i: int| 0 <= i < self.remaining() ==> self.backward()[i] == self.end() - 1 - i,
        decreases self.remaining(),
    {
        if self.remaining() > 0 {
            let rest = self.after_nth_back(0);
            rest.lemma_backward_falls();
            assert forall|i: int| 0 <= i < self.remaining() implies self.backward()[i]
                == self.end() - 1 - i by {
                if i > 0 {
                    assert(self.backward()[i] == rest.backward()[i - 1]);
                }
            }
        }
    }

    /// What comes out from the back is what comes out from the front, in
    /// reverse.
    pub proof fn lemma_backward_is_forward_reversed(self)
        requires
            self.valid(),
        ensures
            self.forward().reverse() == self.backward(),
    {
        self.lemma_forward_rises();
        self.lemma_backward_falls();
        assert(self.forward().reverse() =~= self.backward());
    }

    /// One move keeps the ends from crossing, leaves the array's length alone,
    /// and never gives rows back.
    pub proof fn lemma_move_keeps_valid(self, m: Move)
        requires
            self.valid(),
        ensures
            self.after(m).valid(),
            self.after(m).total == self.total,
            self.after(m).front >= self.front,
            self.after(m).back >= self.back,
            self.after(m).remaining() == self.after(m).total - self.after(m).front - self.after(
                m,
            ).back,
            self.after(m).remaining() <= self.remaining(),
    {
    }

    /// After any run of moves from either end, in any order, the rows still
    /// to come are the array's length less what left at the front and what
    /// left at the back.
    pub proof fn lemma_remaining_after_moves(self, moves: Seq<Move>)
        requires
            self.valid(),
        ensures
            self.after_all(moves).valid(),
            self.after_all(moves).total == self.total,
            self.after_all(moves).remaining() == self.total - self.after_all(moves).front
                - self.after_all(moves).back,
            self.after_all(moves).remaining() <= self.remaining(),
        decreases moves.len(),
    {
        if moves.len() > 0 {
            self.lemma_move_keeps_valid(moves[0]);
            self.after(moves[0]).lemma_remaining_after_moves(moves.skip(1));
        }
    }
}

/// The rows of `rows` at the given indices, in the order of the indices.
pub open spec fn pick<T>(rows: Seq<T>, indices: Seq<nat>) -> Seq<T> {
    Seq::new(indices.len(), |k: int| rows[indices[k] as int])
}

/// The rows that come out of a list when it is walked from the back are those
/// that come out when it is walked from the front, in reverse.
pub proof fn lemma_backward_rows_are_forward_rows_reversed<T>(rows: Seq<T>, span: Span)
    requires
        span.valid(),
        span.total == rows.len(),
    ensures
        pick(rows, span.forward()).reverse() == pick(rows, span.backward()),
{
    span.lemma_backward_is_forward_reversed();
    span.lemma_forward_rises();
    span.lemma_backward_falls();
    assert(pick(rows, span.forward()).reverse() =~= pick(rows, span.backward()));
}

/// Walking a whole list from the front yields its rows in order, and walking
/// it from the back yields them in reverse order.
pub proof fn lemma_whole_list_comes_out<T>(rows: Seq<T>)
    ensures
        pick(rows, Span::fresh(rows.len()).forward()) == rows,
        pick(rows, Span::fresh(rows.len()).backward()) == rows.reverse(),
{
    let span = Span::fresh(rows.len());
    span.lemma_forward_rises();
    span.lemma_backward_falls();
    assert(pick(rows, span.forward()) =~= rows);
    assert(pick(rows, span.backward()) =~= rows.reverse());
}

/// The cursors of a row iterator: `pos` is the index of the next row at the
/// front, `len` the index one past the next row at the back.
pub struct Cursor {
    total: Ghost<nat>,
    len: usize,
    pos: usize,
}

impl Cursor {
    #[verifier::type_invariant]
    spec fn ordered(self) -> bool {
        self.pos <= self.len && self.len <= self.total@ && self.total@ <= usize::MAX
    }

    /// Where the cursors stand.
    pub closed spec fn span(&self) -> Span {
        Span {
            total: self.total@,
            front: self.pos as nat,
            back: (self.total@ - self.len) as nat,
        }
    }

    /// The cursors over a whole array of `len` rows.
    pub fn new(len: usize) -> (c: Self)
        ensures
            c.span() == Span::fresh(len as nat),
    {
        Cursor { total: Ghost(len as nat), len, pos: 0 }
    }

    /// How many rows are still to come.
    pub fn len(&self) -> (rem: usize)
        ensures
            self.span().valid(),
            self.span().total <= usize::MAX,
            rem == self.span().remaining(),
            rem == self.span().total - self.span().front - self.span().back,
    {
        proof {
            use_type_invariant(self);
        }
        self.len - self.pos
    }

    /// Skips `n` rows at the front and takes the next: its index, or nothing
    /// where fewer than `n + 1` rows are left, which exhausts the cursors.
    pub fn nth(&mut self, n: usize) -> (r: Option<usize>)
        ensures
            old(self).span().valid(),
            final(self).span() == old(self).span().after_nth(n as nat),
            match old(self).span().nth_index(n as nat) {
                Some(i) => r == Some(i as usize) && i < old(self).span().total <= usize::MAX,
                None => r is None,
            },
        no_unwind
    {
        proof {
            use_type_invariant(&*self);
        }
        if n < self.len - self.pos {
            let pos = self.pos + n;
            self.pos = pos + 1;
            Some(pos)
        } else {
            self.pos = self.len;
            None
        }
    }

    /// Skips `n` rows at the back and takes the next: its index, or nothing
    /// where fewer than `n + 1` rows are left, which exhausts the cursors.
    pub fn nth_back(&mut self, n: usize) -> (r: Option<usize>)
        ensures
            old(self).span().valid(),
            final(self).span() == old(self).span().after_nth_back(n as nat),
            match old(self).span().nth_back_index(n as nat) {
                Some(i) => r == Some(i as usize) && i < old(self).span().total <= usize::MAX,
                None => r is None,
            },
        no_unwind
    {
        proof {
            use_type_invariant(&*self);
        }
        if n < self.len - self.pos {
            self.len -= 1 + n;
            Some(self.len)
        } else {
            self.pos = self.len;
            None
        }
    }
}

} // verus!
