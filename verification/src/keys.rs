//! Key lists: the view over one batch of keys, its iterator and the rows
//! that the iterator hands out.

use crate::bytes::same_bytes;
use crate::cursor::{pick, Cursor, Span};
use crate::error::{eval, FdbResult};
use crate::handle::FdbFutureHandle;
use crate::shared::share_local;
use std::rc::Rc;
use vstd::prelude::*;

verus! {

/// One key record of a list.
#[derive(Debug)]
pub struct FdbKey {
    key: Vec<u8>,
}

impl FdbKey {
    /// The bytes of the key.
    pub closed spec fn key_bytes(&self) -> Seq<u8> {
        self.key@
    }

    /// The record of the given key.
    pub fn new(key: Vec<u8>) -> (k: Self)
        ensures
            k.key_bytes() == key@,
    {
        FdbKey { key }
    }

    /// The key, read in place.
    pub fn key(&self) -> (k: &[u8])
        ensures
            k@ == self.key_bytes(),
    {
        self.key.as_slice()
    }
}

impl PartialEq for FdbKey {
    /// Two records are equal when their keys are.
    fn eq(&self, other: &Self) -> (same: bool) {
        same_bytes(self.key(), other.key())
    }
}

impl vstd::std_specs::cmp::PartialEqSpecImpl for FdbKey {
    open spec fn obeys_eq_spec() -> bool {
        true
    }

    open spec fn eq_spec(&self, other: &Self) -> bool {
        self.key_bytes() == other.key_bytes()
    }
}

impl Eq for FdbKey {

}

/// A list of key records owned by a completed foreign operation.
#[derive(Debug)]
pub struct FdbKeys<R> {
    _f: FdbFutureHandle<R>,
    keys: Vec<FdbKey>,
}

impl<R> FdbKeys<R> {
    /// The records of the list, in the order in which the foreign side gave
    /// them.
    pub closed spec fn rows(&self) -> Seq<FdbKey> {
        self.keys@
    }

    /// The address of the foreign resource that the list owns.
    pub closed spec fn owner(&self) -> usize {
        self._f.addr()
    }

    /// Builds the list from what the foreign accessor reported for `f`: its
    /// status and the records. A status other than zero is the error with that
    /// code; otherwise the list owns `f` and holds the records unchanged.
    pub fn try_from(f: FdbFutureHandle<R>, status: i32, keys: Vec<FdbKey>) -> (r: FdbResult<Self>)
        ensures
            status == 0 <==> r is Ok,
            r matches Err(e) ==> e@ == status,
            r matches Ok(v) ==> v.rows() == keys@ && v.owner() == f.addr(),
    {
        match eval(status) {
            Ok(()) => Ok(FdbKeys { _f: f, keys }),
            Err(e) => Err(e),
        }
    }

    /// The records as a slice.
    pub fn deref(&self) -> (s: &[FdbKey])
        ensures
            s@ == self.rows(),
    {
        self.keys.as_slice()
    }

    /// The records as a slice.
    pub fn as_ref(&self) -> (s: &[FdbKey])
        ensures
            s@ == self.rows(),
    {
        self.deref()
    }

    /// Turns the list into an iterator over rows that share its ownership of
    /// the foreign resource. Nothing is consumed yet.
    pub fn into_iter(self) -> (it: FdbKeysIter<R>)
        ensures
            it.rows() == self.rows(),
            it.owner() == self.owner(),
            it.span() == Span::fresh(self.rows().len()),
    {
        let len = self.keys.len();
        FdbKeysIter { f: Rc::new(self), cur: Cursor::new(len) }
    }
}

/// An iterator over the rows of a key list; every row it hands out shares
/// the list. It walks from the front only.
pub struct FdbKeysIter<R> {
    f: Rc<FdbKeys<R>>,
    cur: Cursor,
}

impl<R> FdbKeysIter<R> {
    #[verifier::type_invariant]
    spec fn covers(self) -> bool {
        self.cur.span().total == self.f.keys@.len()
    }

    /// All records of the list that is iterated, consumed or not.
    pub closed spec fn rows(&self) -> Seq<FdbKey> {
        self.f.keys@
    }

    /// The address of the foreign resource that the iterator shares.
    pub closed spec fn owner(&self) -> usize {
        self.f._f.addr()
    }

    /// Where the iterator stands in its list.
    pub closed spec fn span(&self) -> Span {
        self.cur.span()
    }

    /// The iterator's cursors lie within its list.
    pub open spec fn in_bounds(&self) -> bool {
        self.span().valid() && self.span().total == self.rows().len()
    }

    /// The next row at the front, or nothing at the end.
    pub fn next(&mut self) -> (r: Option<FdbRowKey<R>>)
        ensures
            old(self).in_bounds(),
            final(self).rows() == old(self).rows(),
            final(self).owner() == old(self).owner(),
            final(self).span() == old(self).span().after_nth(0),
            match old(self).span().nth_index(0) {
                Some(i) => r matches Some(v) && v.row() == old(self).rows()[i as int] && v.owner()
                    == old(self).owner(),
                None => r is None,
            },
    {
        self.nth(0)
    }

    /// Skips `n` rows at the front and hands out the next. Where fewer than
    /// `n + 1` rows are left there is nothing to hand out, and nothing is left
    /// afterwards.
    pub fn nth(&mut self, n: usize) -> (r: Option<FdbRowKey<R>>)
        ensures
            old(self).in_bounds(),
            final(self).rows() == old(self).rows(),
            final(self).owner() == old(self).owner(),
            final(self).span() == old(self).span().after_nth(n as nat),
            match old(self).span().nth_index(n as nat) {
                Some(i) => r matches Some(v) && v.row() == old(self).rows()[i as int] && v.owner()
                    == old(self).owner(),
                None => r is None,
            },
    {
        proof {
            use_type_invariant(&*self);
        }
        match self.cur.nth(n) {
            Some(pos) => Some(FdbRowKey { _f: share_local(&self.f), row_key: pos }),
            None => None,
        }
    }

    /// The bounds on what is left: exactly the number of rows still to come.
    pub fn size_hint(&self) -> (hint: (usize, Option<usize>))
        ensures
            self.in_bounds(),
            hint.0 == self.span().remaining(),
            hint.1 == Some(hint.0),
    {
        proof {
            use_type_invariant(self);
        }
        let rem = self.cur.len();
        (rem, Some(rem))
    }

    /// Walks the rest of the list from the front and hands out every row, in
    /// the order of the list.
    pub fn collect(self) -> (out: Vec<FdbRowKey<R>>)
        ensures
            self.in_bounds(),
            handed_out_keys(out@) == pick(self.rows(), self.span().forward()),
    {
        let mut it = self;
        let mut out: Vec<FdbRowKey<R>> = Vec::new();
        proof {
            use_type_invariant(&it);
        }
        let _ = it.size_hint();
        loop
            invariant
                self.in_bounds(),
                it.in_bounds(),
                it.rows() == self.rows(),
                it.span().back == self.span().back,
                it.span().front == self.span().front + out@.len(),
                forall|k: int|
                    0 <= k < out@.len() ==> (#[trigger] out@[k]).row()
                        == self.rows()[self.span().front + k],
            ensures
                out@.len() == self.span().remaining(),
            decreases it.span().remaining(),
        {
            match it.next() {
                Some(v) => {
                    out.push(v);
                },
                None => {
                    break ;
                },
            }
        }
        proof {
            self.span().lemma_forward_rises();
            assert(handed_out_keys(out@) =~= pick(self.rows(), self.span().forward()));
        }
        out
    }
}

/// The records that a run of rows stands for.
pub open spec fn handed_out_keys<R>(out: Seq<FdbRowKey<R>>) -> Seq<FdbKey> {
    Seq::new(out.len(), |k: int| out[k].row())
}

/// A key row you can own.
///
/// Until dropped, it keeps the whole list that it is from alive.
#[derive(Debug)]
pub struct FdbRowKey<R> {
    _f: Rc<FdbKeys<R>>,
    row_key: usize,
}

impl<R> FdbRowKey<R> {
    #[verifier::type_invariant]
    spec fn inside(self) -> bool {
        self.row_key < self._f.keys@.len()
    }

    /// The record that this row stands for.
    pub closed spec fn row(&self) -> FdbKey {
        self._f.keys@[self.row_key as int]
    }

    /// The address of the foreign resource that the row shares.
    pub closed spec fn owner(&self) -> usize {
        self._f._f.addr()
    }

    /// The record, read in place.
    pub fn deref(&self) -> (kv: &FdbKey)
        ensures
            *kv == self.row(),
    {
        proof {
            use_type_invariant(self);
        }
        &self._f.keys[self.row_key]
    }

    /// The record, read in place.
    pub fn as_ref(&self) -> (kv: &FdbKey)
        ensures
            *kv == self.row(),
    {
        self.deref()
    }
}

impl<R> PartialEq for FdbRowKey<R> {
    /// Two rows are equal when their records are, whichever list they are
    /// from.
    fn eq(&self, other: &Self) -> (same: bool) {
        self.deref() == other.deref()
    }
}

impl<R> vstd::std_specs::cmp::PartialEqSpecImpl for FdbRowKey<R> {
    open spec fn obeys_eq_spec() -> bool {
        true
    }

    open spec fn eq_spec(&self, other: &Self) -> bool {
        self.row().key_bytes() == other.row().key_bytes()
    }
}

impl<R> Eq for FdbRowKey<R> {

}

} // verus!
