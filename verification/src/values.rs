//! Key-value lists: the view over one batch of rows, its iterator and the
//! rows that the iterator hands out.

use crate::bytes::same_bytes;
use crate::cursor::{pick, Cursor, Span};
use crate::error::{eval, FdbResult};
use crate::handle::FdbFutureHandle;
use crate::shared::share;
use std::sync::Arc;
use vstd::prelude::*;

verus! {

/// One key-value record of a list.
#[derive(Debug)]
pub struct FdbKeyValue {
    key: Vec<u8>,
    value: Vec<u8>,
}

impl FdbKeyValue {
    /// The bytes of the key.
    pub closed spec fn key_bytes(&self) -> Seq<u8> {
        self.key@
    }

    /// The bytes of the value.
    pub closed spec fn value_bytes(&self) -> Seq<u8> {
        self.value@
    }

    /// The record of the given key and value.
    pub fn new(key: Vec<u8>, value: Vec<u8>) -> (kv: Self)
        ensures
            kv.key_bytes() == key@,
            kv.value_bytes() == value@,
    {
        FdbKeyValue { key, value }
    }

    /// The key, read in place.
    pub fn key(&self) -> (k: &[u8])
        ensures
            k@ == self.key_bytes(),
    {
        self.key.as_slice()
    }

    /// The value, read in place.
    pub fn value(&self) -> (v: &[u8])
        ensures
            v@ == self.value_bytes(),
    {
        self.value.as_slice()
    }
}

impl PartialEq for FdbKeyValue {
    /// Two records are equal when their keys and their values are.
    fn eq(&self, other: &Self) -> (same: bool) {
        same_bytes(self.key(), other.key()) && same_bytes(self.value(), other.value())
    }
}

impl vstd::std_specs::cmp::PartialEqSpecImpl for FdbKeyValue {
    open spec fn obeys_eq_spec() -> bool {
        true
    }

    open spec fn eq_spec(&self, other: &Self) -> bool {
        self.key_bytes() == other.key_bytes() && self.value_bytes() == other.value_bytes()
    }
}

impl Eq for FdbKeyValue {

}

/// A list of key-value records owned by a completed foreign operation.
#[derive(Debug)]
pub struct FdbValues<R> {
    _f: FdbFutureHandle<R>,
    keyvalues: Vec<FdbKeyValue>,
    more: bool,
}

impl<R> FdbValues<R> {
    /// The records of the list, in the order in which the foreign side gave
    /// them.
    pub closed spec fn rows(&self) -> Seq<FdbKeyValue> {
        self.keyvalues@
    }

    /// The address of the foreign resource that the list owns.
    pub closed spec fn owner(&self) -> usize {
        self._f.addr()
    }

    /// The continuation flag that came with the list.
    pub closed spec fn continues(&self) -> bool {
        self.more
    }

    /// Builds the list from what the foreign accessor reported for `f`: its
    /// status, the records and the raw continuation flag. A status other than
    /// zero is the error with that code; otherwise the list owns `f`, holds
    /// the records unchanged and continues where the flag is not zero.
    pub fn try_from(
        f: FdbFutureHandle<R>,
        status: i32,
        keyvalues: Vec<FdbKeyValue>,
        more: i32,
    ) -> (r: FdbResult<Self>)
        ensures
            status == 0 <==> r is Ok,
            r matches Err(e) ==> e@ == status,
            r matches Ok(v) ==> v.rows() == keyvalues@ && v.owner() == f.addr() && v.continues()
                == (more != 0),
    {
        match eval(status) {
            Ok(()) => Ok(FdbValues { _f: f, keyvalues, more: more != 0 }),
            Err(e) => Err(e),
        }
    }

    /// Whether more rows exist beyond this batch, as the foreign side said.
    pub fn more(&self) -> (m: bool)
        ensures
            m == self.continues(),
    {
        self.more
    }

    /// The records as a slice.
    pub fn deref(&self) -> (s: &[FdbKeyValue])
        ensures
            s@ == self.rows(),
    {
        self.keyvalues.as_slice()
    }

    /// The records as a slice.
    pub fn as_ref(&self) -> (s: &[FdbKeyValue])
        ensures
            s@ == self.rows(),
    {
        self.deref()
    }

    /// Turns the list into an iterator over rows that share its ownership of
    /// the foreign resource. Nothing is consumed yet.
    pub fn into_iter(self) -> (it: FdbValuesIter<R>)
        ensures
            it.rows() == self.rows(),
            it.owner() == self.owner(),
            it.span() == Span::fresh(self.rows().len()),
    {
        let len = self.keyvalues.len();
        FdbValuesIter { f: Arc::new(self), cur: Cursor::new(len) }
    }
}

/// An iterator over the rows of a key-value list; every row it hands out
/// shares the list.
pub struct FdbValuesIter<R> {
    f: Arc<FdbValues<R>>,
    cur: Cursor,
}

impl<R> FdbValuesIter<R> {
    #[verifier::type_invariant]
    spec fn covers(self) -> bool {
        self.cur.span().total == self.f.keyvalues@.len()
    }

    /// All records of the list that is iterated, consumed or not.
    pub closed spec fn rows(&self) -> Seq<FdbKeyValue> {
        self.f.keyvalues@
    }

    /// The address of the foreign resource that the iterator shares.
    pub closed spec fn owner(&self) -> usize {
        self.f._f.addr()
    }

    /// Where the iterator stands in its list.
    pub closed spec fn span(&self) -> Span {
        self.cur.span()
    }

    /// The iterator's cursors lie within its list.
    pub open spec fn in_bounds(&self) -> bool {
        self.span().valid() && self.span().total == self.rows().len()
    }

    /// The next row at the front, or nothing at the end.
    pub fn next(&mut self) -> (r: Option<FdbValue<R>>)
        ensures
            old(self).in_bounds(),
            final(self).rows() == old(self).rows(),
            final(self).owner() == old(self).owner(),
            final(self).span() == old(self).span().after_nth(0),
            match old(self).span().nth_index(0) {
                Some(i) => r matches Some(v) && v.row() == old(self).rows()[i as int] && v.owner()
                    == old(self).owner(),
                None => r is None,
            },
    {
        self.nth(0)
    }

    /// Skips `n` rows at the front and hands out the next. Where fewer than
    /// `n + 1` rows are left there is nothing to hand out, and nothing is left
    /// afterwards.
    pub fn nth(&mut self, n: usize) -> (r: Option<FdbValue<R>>)
        ensures
            old(self).in_bounds(),
            final(self).rows() == old(self).rows(),
            final(self).owner() == old(self).owner(),
            final(self).span() == old(self).span().after_nth(n as nat),
            match old(self).span().nth_index(n as nat) {
                Some(i) => r matches Some(v) && v.row() == old(self).rows()[i as int] && v.owner()
                    == old(self).owner(),
                None => r is None,
            },
    {
        proof {
            use_type_invariant(&*self);
        }
        match self.cur.nth(n) {
            Some(pos) => Some(FdbValue { _f: share(&self.f), keyvalue: pos }),
            None => None,
        }
    }

    /// The bounds on what is left: exactly the number of rows still to come.
    pub fn size_hint(&self) -> (hint: (usize, Option<usize>))
        ensures
            self.in_bounds(),
            hint.0 == self.span().remaining(),
            hint.1 == Some(hint.0),
    {
        let rem = self.len();
        (rem, Some(rem))
    }

    /// The number of rows still to come: the length of the list less what
    /// left at the front and what left at the back.
    pub fn len(&self) -> (rem: usize)
        ensures
            self.in_bounds(),
            rem == self.span().remaining(),
            rem == self.rows().len() - self.span().front - self.span().back,
    {
        proof {
            use_type_invariant(self);
        }
        self.cur.len()
    }

    /// The next row at the back, or nothing at the end.
    pub fn next_back(&mut self) -> (r: Option<FdbValue<R>>)
        ensures
            old(self).in_bounds(),
            final(self).rows() == old(self).rows(),
            final(self).owner() == old(self).owner(),
            final(self).span() == old(self).span().after_nth_back(0),
            match old(self).span().nth_back_index(0) {
                Some(i) => r matches Some(v) && v.row() == old(self).rows()[i as int] && v.owner()
                    == old(self).owner(),
                None => r is None,
            },
    {
        self.nth_back(0)
    }

    /// Skips `n` rows at the back and hands out the next. Where fewer than
    /// `n + 1` rows are left there is nothing to hand out, and nothing is left
    /// afterwards.
    pub fn nth_back(&mut self, n: usize) -> (r: Option<FdbValue<R>>)
        ensures
            old(self).in_bounds(),
            final(self).rows() == old(self).rows(),
            final(self).owner() == old(self).owner(),
            final(self).span() == old(self).span().after_nth_back(n as nat),
            match old(self).span().nth_back_index(n as nat) {
                Some(i) => r matches Some(v) && v.row() == old(self).rows()[i as int] && v.owner()
                    == old(self).owner(),
                None => r is None,
            },
    {
        proof {
            use_type_invariant(&*self);
        }
        match self.cur.nth_back(n) {
            Some(pos) => Some(FdbValue { _f: share(&self.f), keyvalue: pos }),
            None => None,
        }
    }

    /// Walks the rest of the list from the front and hands out every row, in
    /// the order of the list.
    pub fn collect(self) -> (out: Vec<FdbValue<R>>)
        ensures
            self.in_bounds(),
            handed_out(out@) == pick(self.rows(), self.span().forward()),
    {
        let mut it = self;
        let mut out: Vec<FdbValue<R>> = Vec::new();
        proof {
            use_type_invariant(&it);
        }
        let _ = it.len();
        loop
            invariant
                self.in_bounds(),
                it.in_bounds(),
                it.rows() == self.rows(),
                it.span().back == self.span().back,
                it.span().front == self.span().front + out@.len(),
                forall|k: int|
                    0 <= k < out@.len() ==> (#[trigger] out@[k]).row()
                        == self.rows()[self.span().front + k],
            ensures
                out@.len() == self.span().remaining(),
            decreases it.span().remaining(),
        {
            match it.next() {
                Some(v) => {
                    out.push(v);
                },
                None => {
                    break ;
                },
            }
        }
        proof {
            self.span().lemma_forward_rises();
            assert(handed_out(out@) =~= pick(self.rows(), self.span().forward()));
        }
        out
    }

    /// Walks the rest of the list from the back and hands out every row, the
    /// last one first.
    pub fn collect_back(self) -> (out: Vec<FdbValue<R>>)
        ensures
            self.in_bounds(),
            handed_out(out@) == pick(self.rows(), self.span().backward()),
    {
        let mut it = self;
        let mut out: Vec<FdbValue<R>> = Vec::new();
        proof {
            use_type_invariant(&it);
        }
        let _ = it.len();
        loop
            invariant
                self.in_bounds(),
                it.in_bounds(),
                it.rows() == self.rows(),
                it.span().front == self.span().front,
                it.span().back == self.span().back + out@.len(),
                forall|k: int|
                    0 <= k < out@.len() ==> (#[trigger] out@[k]).row()
                        == self.rows()[self.span().end() - 1 - k],
            ensures
                out@.len() == self.span().remaining(),
            decreases it.span().remaining(),
        {
            match it.next_back() {
                Some(v) => {
                    out.push(v);
                },
                None => {
                    break ;
                },
            }
        }
        proof {
            self.span().lemma_backward_falls();
            assert(handed_out(out@) =~= pick(self.rows(), self.span().backward()));
        }
        out
    }
}

/// The records that a run of rows stands for.
pub open spec fn handed_out<R>(out: Seq<FdbValue<R>>) -> Seq<FdbKeyValue> {
    Seq::new(out.len(), |k: int| out[k].row())
}

/// A key-value row you can own.
///
/// Until dropped, it keeps the whole list that it is from alive.
#[derive(Debug)]
pub struct FdbValue<R> {
    _f: Arc<FdbValues<R>>,
    keyvalue: usize,
}

impl<R> FdbValue<R> {
    #[verifier::type_invariant]
    spec fn inside(self) -> bool {
        self.keyvalue < self._f.keyvalues@.len()
    }

    /// The record that this row stands for.
    pub closed spec fn row(&self) -> FdbKeyValue {
        self._f.keyvalues@[self.keyvalue as int]
    }

    /// The address of the foreign resource that the row shares.
    pub closed spec fn owner(&self) -> usize {
        self._f._f.addr()
    }

    /// The record, read in place.
    pub fn deref(&self) -> (kv: &FdbKeyValue)
        ensures
            *kv == self.row(),
    {
        proof {
            use_type_invariant(self);
        }
        &self._f.keyvalues[self.keyvalue]
    }

    /// The record, read in place.
    pub fn as_ref(&self) -> (kv: &FdbKeyValue)
        ensures
            *kv == self.row(),
    {
        self.deref()
    }
}

impl<R> PartialEq for FdbValue<R> {
    /// Two rows are equal when their records are, whichever list they are
    /// from.
    fn eq(&self, other: &Self) -> (same: bool) {
        self.deref() == other.deref()
    }
}

impl<R> vstd::std_specs::cmp::PartialEqSpecImpl for FdbValue<R> {
    open spec fn obeys_eq_spec() -> bool {
        true
    }

    open spec fn eq_spec(&self, other: &Self) -> bool {
        self.row().key_bytes() == other.row().key_bytes() && self.row().value_bytes()
            == other.row().value_bytes()
    }
}

impl<R> Eq for FdbValue<R> {

}

} // verus!
