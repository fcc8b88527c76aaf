//! Mapped key-value lists: rows that carry a parent key-value pair and the
//! sub-range of key-value records that the parent maps to.

use crate::bytes::same_bytes;
use crate::cursor::{pick, Cursor, Span};
use crate::error::{eval, FdbResult};
use crate::handle::FdbFutureHandle;
use crate::shared::share;
use crate::values::FdbKeyValue;
use std::sync::Arc;
use vstd::prelude::*;

verus! {

/// One record of a mapped key-value list.
#[derive(Debug)]
pub struct FdbMappedKeyValue {
    key: Vec<u8>,
    value: Vec<u8>,
    begin: Vec<u8>,
    end: Vec<u8>,
    data: Vec<FdbKeyValue>,
}

impl FdbMappedKeyValue {
    /// The bytes of the parent key.
    pub closed spec fn parent_key_bytes(&self) -> Seq<u8> {
        self.key@
    }

    /// The bytes of the parent value.
    pub closed spec fn parent_value_bytes(&self) -> Seq<u8> {
        self.value@
    }

    /// The bytes of the key at which the mapped range begins.
    pub closed spec fn begin_bytes(&self) -> Seq<u8> {
        self.begin@
    }

    /// The bytes of the key at which the mapped range ends.
    pub closed spec fn end_bytes(&self) -> Seq<u8> {
        self.end@
    }

    /// The records of the mapped range.
    pub closed spec fn range_rows(&self) -> Seq<FdbKeyValue> {
        self.data@
    }

    /// The record of the given parent pair, range bounds and range records.
    pub fn new(
        key: Vec<u8>,
        value: Vec<u8>,
        begin: Vec<u8>,
        end: Vec<u8>,
        data: Vec<FdbKeyValue>,
    ) -> (kv: Self)
        ensures
            kv.parent_key_bytes() == key@,
            kv.parent_value_bytes() == value@,
            kv.begin_bytes() == begin@,
            kv.end_bytes() == end@,
            kv.range_rows() == data@,
    {
        FdbMappedKeyValue { key, value, begin, end, data }
    }

    /// The parent key.
    pub fn parent_key(&self) -> (k: &[u8])
        ensures
            k@ == self.parent_key_bytes(),
    {
        self.key.as_slice()
    }

    /// The parent value.
    pub fn parent_value(&self) -> (v: &[u8])
        ensures
            v@ == self.parent_value_bytes(),
    {
        self.value.as_slice()
    }

    /// The key at which the mapped range begins.
    pub fn begin_range(&self) -> (k: &[u8])
        ensures
            k@ == self.begin_bytes(),
    {
        self.begin.as_slice()
    }

    /// The key at which the mapped range ends.
    pub fn end_range(&self) -> (k: &[u8])
        ensures
            k@ == self.end_bytes(),
    {
        self.end.as_slice()
    }

    /// The records of the mapped range, read in place.
    pub fn key_values(&self) -> (rows: &[FdbKeyValue])
        ensures
            rows@ == self.range_rows(),
    {
        self.data.as_slice()
    }
}

impl PartialEq for FdbMappedKeyValue {
    /// Two records are equal when their parent keys and their parent values
    /// are.
    fn eq(&self, other: &Self) -> (same: bool) {
        same_bytes(self.parent_key(), other.parent_key()) && same_bytes(
            self.parent_value(),
            other.parent_value(),
        )
    }
}

impl vstd::std_specs::cmp::PartialEqSpecImpl for FdbMappedKeyValue {
    open spec fn obeys_eq_spec() -> bool {
        true
    }

    open spec fn eq_spec(&self, other: &Self) -> bool {
        self.parent_key_bytes() == other.parent_key_bytes() && self.parent_value_bytes()
            == other.parent_value_bytes()
    }
}

impl Eq for FdbMappedKeyValue {

}

/// A list of mapped key-value records owned by a completed foreign
/// operation.
#[derive(Debug)]
pub struct MappedKeyValues<R> {
    _f: FdbFutureHandle<R>,
    mapped_keyvalues: Vec<FdbMappedKeyValue>,
    more: bool,
}

impl<R> MappedKeyValues<R> {
    /// The records of the list, in the order in which the foreign side gave
    /// them.
    pub closed spec fn rows(&self) -> Seq<FdbMappedKeyValue> {
        self.mapped_keyvalues@
    }

    /// The address of the foreign resource that the list owns.
    pub closed spec fn owner(&self) -> usize {
        self._f.addr()
    }

    /// The continuation flag that came with the list.
    pub closed spec fn continues(&self) -> bool {
        self.more
    }

    /// Builds the list from what the foreign accessor reported for `f`: its
    /// status, the records and the raw continuation flag. A status other than
    /// zero is the error with that code; otherwise the list owns `f`, holds
    /// the records unchanged and continues where the flag is not zero.
    pub fn try_from(
        f: FdbFutureHandle<R>,
        status: i32,
        mapped_keyvalues: Vec<FdbMappedKeyValue>,
        more: i32,
    ) -> (r: FdbResult<Self>)
        ensures
            status == 0 <==> r is Ok,
            r matches Err(e) ==> e@ == status,
            r matches Ok(v) ==> v.rows() == mapped_keyvalues@ && v.owner() == f.addr()
                && v.continues() == (more != 0),
    {
        match eval(status) {
            Ok(()) => Ok(MappedKeyValues { _f: f, mapped_keyvalues, more: more != 0 }),
            Err(e) => Err(e),
        }
    }

    /// Whether more rows exist beyond this batch, as the foreign side said.
    pub fn more(&self) -> (m: bool)
        ensures
            m == self.continues(),
    {
        self.more
    }

    /// The records as a slice.
    pub fn deref(&self) -> (s: &[FdbMappedKeyValue])
        ensures
            s@ == self.rows(),
    {
        self.mapped_keyvalues.as_slice()
    }

    /// The records as a slice.
    pub fn as_ref(&self) -> (s: &[FdbMappedKeyValue])
        ensures
            s@ == self.rows(),
    {
        self.deref()
    }

    /// Turns the list into an iterator over rows that share its ownership of
    /// the foreign resource. Nothing is consumed yet.
    pub fn into_iter(self) -> (it: FdbMappedValuesIter<R>)
        ensures
            it.rows() == self.rows(),
            it.owner() == self.owner(),
            it.span() == Span::fresh(self.rows().len()),
    {
        let len = self.mapped_keyvalues.len();
        FdbMappedValuesIter { f: Arc::new(self), cur: Cursor::new(len) }
    }
}

/// An iterator over the rows of a mapped key-value list; every row it hands
/// out shares the list.
pub struct FdbMappedValuesIter<R> {
    f: Arc<MappedKeyValues<R>>,
    cur: Cursor,
}

impl<R> FdbMappedValuesIter<R> {
    #[verifier::type_invariant]
    spec fn covers(self) -> bool {
        self.cur.span().total == self.f.mapped_keyvalues@.len()
    }

    /// All records of the list that is iterated, consumed or not.
    pub closed spec fn rows(&self) -> Seq<FdbMappedKeyValue> {
        self.f.mapped_keyvalues@
    }

    /// The address of the foreign resource that the iterator shares.
    pub closed spec fn owner(&self) -> usize {
        self.f._f.addr()
    }

    /// Where the iterator stands in its list.
    pub closed spec fn span(&self) -> Span {
        self.cur.span()
    }

    /// The iterator's cursors lie within its list.
    pub open spec fn in_bounds(&self) -> bool {
        self.span().valid() && self.span().total == self.rows().len()
    }

    /// The next row at the front, or nothing at the end.
    pub fn next(&mut self) -> (r: Option<FdbMappedValue<R>>)
        ensures
            old(self).in_bounds(),
            final(self).rows() == old(self).rows(),
            final(self).owner() == old(self).owner(),
            final(self).span() == old(self).span().after_nth(0),
            match old(self).span().nth_index(0) {
                Some(i) => r matches Some(v) && v.row() == old(self).rows()[i as int] && v.owner()
                    == old(self).owner(),
                None => r is None,
            },
    {
        self.nth(0)
    }

    /// Skips `n` rows at the front and hands out the next. Where fewer than
    /// `n + 1` rows are left there is nothing to hand out, and nothing is left
    /// afterwards.
    pub fn nth(&mut self, n: usize) -> (r: Option<FdbMappedValue<R>>)
        ensures
            old(self).in_bounds(),
            final(self).rows() == old(self).rows(),
            final(self).owner() == old(self).owner(),
            final(self).span() == old(self).span().after_nth(n as nat),
            match old(self).span().nth_index(n as nat) {
                Some(i) => r matches Some(v) && v.row() == old(self).rows()[i as int] && v.owner()
                    == old(self).owner(),
                None => r is None,
            },
    {
        proof {
            use_type_invariant(&*self);
        }
        match self.cur.nth(n) {
            Some(pos) => Some(FdbMappedValue { _f: share(&self.f), mapped_keyvalue: pos }),
            None => None,
        }
    }

    /// The bounds on what is left: exactly the number of rows still to come.
    pub fn size_hint(&self) -> (hint: (usize, Option<usize>))
        ensures
            self.in_bounds(),
            hint.0 == self.span().remaining(),
            hint.1 == Some(hint.0),
    {
        let rem = self.len();
        (rem, Some(rem))
    }

    /// The number of rows still to come: the length of the list less what
    /// left at the front and what left at the back.
    pub fn len(&self) -> (rem: usize)
        ensures
            self.in_bounds(),
            rem == self.span().remaining(),
            rem == self.rows().len() - self.span().front - self.span().back,
    {
        proof {
            use_type_invariant(self);
        }
        self.cur.len()
    }

    /// The next row at the back, or nothing at the end.
    pub fn next_back(&mut self) -> (r: Option<FdbMappedValue<R>>)
        ensures
            old(self).in_bounds(),
            final(self).rows() == old(self).rows(),
            final(self).owner() == old(self).owner(),
            final(self).span() == old(self).span().after_nth_back(0),
            match old(self).span().nth_back_index(0) {
                Some(i) => r matches Some(v) && v.row() == old(self).rows()[i as int] && v.owner()
                    == old(self).owner(),
                None => r is None,
            },
    {
        self.nth_back(0)
    }

    /// Skips `n` rows at the back and hands out the next. Where fewer than
    /// `n + 1` rows are left there is nothing to hand out, and nothing is left
    /// afterwards.
    pub fn nth_back(&mut self, n: usize) -> (r: Option<FdbMappedValue<R>>)
        ensures
            old(self).in_bounds(),
            final(self).rows() == old(self).rows(),
            final(self).owner() == old(self).owner(),
            final(self).span() == old(self).span().after_nth_back(n as nat),
            match old(self).span().nth_back_index(n as nat) {
                Some(i) => r matches Some(v) && v.row() == old(self).rows()[i as int] && v.owner()
                    == old(self).owner(),
                None => r is None,
            },
    {
        proof {
            use_type_invariant(&*self);
        }
        match self.cur.nth_back(n) {
            Some(pos) => Some(FdbMappedValue { _f: share(&self.f), mapped_keyvalue: pos }),
            None => None,
        }
    }

    /// Walks the rest of the list from the front and hands out every row, in
    /// the order of the list.
    pub fn collect(self) -> (out: Vec<FdbMappedValue<R>>)
        ensures
            self.in_bounds(),
            handed_out_mapped(out@) == pick(self.rows(), self.span().forward()),
    {
        let mut it = self;
        let mut out: Vec<FdbMappedValue<R>> = Vec::new();
        proof {
            use_type_invariant(&it);
        }
        let _ = it.len();
        loop
            invariant
                self.in_bounds(),
                it.in_bounds(),
                it.rows() == self.rows(),
                it.span().back == self.span().back,
                it.span().front == self.span().front + out@.len(),
                forall|k: int|
                    0 <= k < out@.len() ==> (#[trigger] out@[k]).row()
                        == self.rows()[self.span().front + k],
            ensures
                out@.len() == self.span().remaining(),
            decreases it.span().remaining(),
        {
            match it.next() {
                Some(v) => {
                    out.push(v);
                },
                None => {
                    break ;
                },
            }
        }
        proof {
            self.span().lemma_forward_rises();
            assert(handed_out_mapped(out@) =~= pick(self.rows(), self.span().forward()));
        }
        out
    }

    /// Walks the rest of the list from the back and hands out every row, the
    /// last one first.
    pub fn collect_back(self) -> (out: Vec<FdbMappedValue<R>>)
        ensures
            self.in_bounds(),
            handed_out_mapped(out@) == pick(self.rows(), self.span().backward()),
    {
        let mut it = self;
        let mut out: Vec<FdbMappedValue<R>> = Vec::new();
        proof {
            use_type_invariant(&it);
        }
        let _ = it.len();
        loop
            invariant
                self.in_bounds(),
                it.in_bounds(),
                it.rows() == self.rows(),
                it.span().front == self.span().front,
                it.span().back == self.span().back + out@.len(),
                forall|k: int|
                    0 <= k < out@.len() ==> (#[trigger] out@[k]).row()
                        == self.rows()[self.span().end() - 1 - k],
            ensures
                out@.len() == self.span().remaining(),
            decreases it.span().remaining(),
        {
            match it.next_back() {
                Some(v) => {
                    out.push(v);
                },
                None => {
                    break ;
                },
            }
        }
        proof {
            self.span().lemma_backward_falls();
            assert(handed_out_mapped(out@) =~= pick(self.rows(), self.span().backward()));
        }
        out
    }
}

/// The records that a run of rows stands for.
pub open spec fn handed_out_mapped<R>(out: Seq<FdbMappedValue<R>>) -> Seq<FdbMappedKeyValue> {
    Seq::new(out.len(), |k: int| out[k].row())
}

/// A mapped key-value row you can own.
///
/// Until dropped, it keeps the whole list that it is from alive.
#[derive(Debug)]
pub struct FdbMappedValue<R> {
    _f: Arc<MappedKeyValues<R>>,
    mapped_keyvalue: usize,
}

impl<R> FdbMappedValue<R> {
    #[verifier::type_invariant]
    spec fn inside(self) -> bool {
        self.mapped_keyvalue < self._f.mapped_keyvalues@.len()
    }

    /// The record that this row stands for.
    pub closed spec fn row(&self) -> FdbMappedKeyValue {
        self._f.mapped_keyvalues@[self.mapped_keyvalue as int]
    }

    /// The address of the foreign resource that the row shares.
    pub closed spec fn owner(&self) -> usize {
        self._f._f.addr()
    }

    /// The record, read in place.
    pub fn deref(&self) -> (kv: &FdbMappedKeyValue)
        ensures
            *kv == self.row(),
    {
        proof {
            use_type_invariant(self);
        }
        &self._f.mapped_keyvalues[self.mapped_keyvalue]
    }

    /// The record, read in place.
    pub fn as_ref(&self) -> (kv: &FdbMappedKeyValue)
        ensures
            *kv == self.row(),
    {
        self.deref()
    }
}

impl<R> PartialEq for FdbMappedValue<R> {
    /// Two rows are equal when their parent keys and parent values are,
    /// whichever list they are from.
    fn eq(&self, other: &Self) -> (same: bool) {
        self.deref() == other.deref()
    }
}

impl<R> vstd::std_specs::cmp::PartialEqSpecImpl for FdbMappedValue<R> {
    open spec fn obeys_eq_spec() -> bool {
        true
    }

    open spec fn eq_spec(&self, other: &Self) -> bool {
        self.row().parent_key_bytes() == other.row().parent_key_bytes()
            && self.row().parent_value_bytes() == other.row().parent_value_bytes()
    }
}

impl<R> Eq for FdbMappedValue<R> {

}

} // verus!
