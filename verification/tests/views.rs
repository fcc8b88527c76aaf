use fdb_future::addresses::{FdbAddress, FdbAddresses};
use fdb_future::bytes::same_bytes;
use fdb_future::handle::FdbFutureHandle;
use fdb_future::keys::{FdbKey, FdbKeys};
use fdb_future::mapped::{FdbMappedKeyValue, MappedKeyValues};
use fdb_future::scalar::{try_empty, try_int64};
use fdb_future::slice::FdbSlice;
use fdb_future::values::{FdbKeyValue, FdbValue, FdbValues};
use std::sync::atomic::{AtomicUsize, Ordering};
use std::sync::Arc;

struct Release {
    calls: Arc<AtomicUsize>,
}

impl Drop for Release {
    fn drop(&mut self) {
        self.calls.fetch_add(1, Ordering::SeqCst);
    }
}

fn counted_handle(addr: usize) -> (Arc<AtomicUsize>, FdbFutureHandle<Release>) {
    let calls = Arc::new(AtomicUsize::new(0));
    (calls.clone(), FdbFutureHandle::new(addr, Release { calls }))
}

fn handle() -> FdbFutureHandle<()> {
    FdbFutureHandle::new(0x4000, ())
}

fn kv(k: &[u8], v: &[u8]) -> FdbKeyValue {
    FdbKeyValue::new(k.to_vec(), v.to_vec())
}

fn rows(n: usize) -> Vec<FdbKeyValue> {
    (0..n).map(|i| kv(&[b'k', i as u8], &[b'v', i as u8, i as u8])).collect()
}

fn values(n: usize) -> FdbValues<()> {
    FdbValues::try_from(handle(), 0, rows(n), 0).unwrap()
}

fn keys_of(out: &[FdbValue<()>]) -> Vec<Vec<u8>> {
    out.iter().map(|v| v.deref().key().to_vec()).collect()
}

// A small generator of byte strings of varying length, zero included.
fn noise(seed: &mut u64, max_len: usize) -> Vec<u8> {
    let mut step = || {
        *seed = seed.wrapping_mul(6364136223846793005).wrapping_add(1442695040888963407);
        (*seed >> 33) as usize
    };
    let len = step() % (max_len + 1);
    (0..len).map(|_| step() as u8).collect()
}

#[test]
fn three_rows_with_more_come_out_in_order() {
    let list = FdbValues::try_from(
        handle(),
        0,
        vec![kv(b"a", b"1"), kv(b"b", b"2"), kv(b"c", b"3")],
        1,
    )
    .unwrap();
    assert_eq!(list.deref().len(), 3);
    assert!(list.more());
    let mut it = list.into_iter();
    let first = it.next().unwrap();
    assert_eq!(first.deref().key(), b"a");
    assert_eq!(first.deref().value(), b"1");
    let second = it.next().unwrap();
    assert_eq!(second.deref().key(), b"b");
    assert_eq!(second.deref().value(), b"2");
    let third = it.next().unwrap();
    assert_eq!(third.deref().key(), b"c");
    assert_eq!(third.deref().value(), b"3");
    assert!(it.next().is_none());
    assert!(it.next().is_none());
}

#[test]
fn more_is_the_raw_flag() {
    let yes = FdbValues::try_from(handle(), 0, rows(1), 1).unwrap();
    assert!(yes.more());
    let no = FdbValues::try_from(handle(), 0, rows(1), 0).unwrap();
    assert!(!no.more());
    let other = FdbValues::try_from(handle(), 0, rows(1), -3).unwrap();
    assert!(other.more());
}

#[test]
fn mapped_more_is_the_raw_flag() {
    let yes = MappedKeyValues::try_from(handle(), 0, Vec::new(), 1).unwrap();
    assert!(yes.more());
    let no = MappedKeyValues::try_from(handle(), 0, Vec::new(), 0).unwrap();
    assert!(!no.more());
}

#[test]
fn error_status_gives_the_error_and_no_view() {
    let r = FdbValues::try_from(handle(), 1020, Vec::new(), 0);
    assert_eq!(r.unwrap_err().code(), 1020);
    let r = MappedKeyValues::try_from(handle(), 2000, Vec::new(), 1);
    assert_eq!(r.unwrap_err().code(), 2000);
    let r = FdbKeys::try_from(handle(), 1031, Vec::new());
    assert_eq!(r.unwrap_err().code(), 1031);
    let r = FdbAddresses::try_from(handle(), 1500, Vec::new());
    assert_eq!(r.unwrap_err().code(), 1500);
    let r = FdbSlice::try_from(handle(), 1025, Vec::new());
    assert_eq!(r.unwrap_err().code(), 1025);
    let r = FdbSlice::try_from_optional(handle(), 1025, 1, Vec::new());
    assert_eq!(r.unwrap_err().code(), 1025);
    assert_eq!(try_int64(handle(), 1009, 0).unwrap_err().code(), 1009);
}

#[test]
fn error_status_releases_the_resource() {
    let (calls, h) = counted_handle(0x5000);
    let r = FdbValues::try_from(h, 1020, Vec::new(), 0);
    assert!(r.is_err());
    assert_eq!(calls.load(Ordering::SeqCst), 1);
}

#[test]
fn forward_reversed_is_backward() {
    for n in 0..6usize {
        let mut forward = keys_of(&values(n).into_iter().collect());
        let backward = keys_of(&values(n).into_iter().collect_back());
        assert_eq!(forward.len(), n);
        forward.reverse();
        assert_eq!(forward, backward);
    }
}

#[test]
fn forward_reversed_is_backward_from_the_middle() {
    let start = || {
        let mut it = values(7).into_iter();
        it.next();
        it.next_back();
        it.next_back();
        it
    };
    let mut forward = keys_of(&start().collect());
    let backward = keys_of(&start().collect_back());
    assert_eq!(forward, vec![vec![b'k', 1], vec![b'k', 2], vec![b'k', 3], vec![b'k', 4]]);
    forward.reverse();
    assert_eq!(forward, backward);
}

#[test]
fn remaining_length_follows_both_cursors() {
    let mut it = values(10).into_iter();
    assert_eq!(it.len(), 10);
    assert_eq!(it.size_hint(), (10, Some(10)));
    it.next();
    assert_eq!(it.len(), 9);
    it.next_back();
    assert_eq!(it.len(), 8);
    // skips two, takes one
    assert_eq!(it.nth(2).unwrap().deref().key(), &[b'k', 3]);
    assert_eq!(it.len(), 5);
    // skips one, takes one
    assert_eq!(it.nth_back(1).unwrap().deref().key(), &[b'k', 7]);
    assert_eq!(it.len(), 3);
    assert_eq!(it.next().unwrap().deref().key(), &[b'k', 4]);
    assert_eq!(it.next_back().unwrap().deref().key(), &[b'k', 6]);
    assert_eq!(it.len(), 1);
    assert_eq!(it.next_back().unwrap().deref().key(), &[b'k', 5]);
    assert_eq!(it.len(), 0);
    assert_eq!(it.size_hint(), (0, Some(0)));
    assert!(it.next().is_none());
    assert!(it.next_back().is_none());
    assert_eq!(it.len(), 0);
}

#[test]
fn nth_beyond_the_end_exhausts() {
    let mut it = values(4).into_iter();
    assert!(it.nth(4).is_none());
    assert_eq!(it.len(), 0);
    assert!(it.next().is_none());
    assert!(it.next_back().is_none());
}

#[test]
fn nth_with_the_largest_count_exhausts() {
    let mut it = values(4).into_iter();
    it.next();
    assert!(it.nth(usize::MAX).is_none());
    assert_eq!(it.len(), 0);
}

#[test]
fn nth_back_beyond_the_front_exhausts() {
    let mut it = values(4).into_iter();
    it.next();
    assert!(it.nth_back(3).is_none());
    assert_eq!(it.len(), 0);
    assert!(it.next().is_none());
}

#[test]
fn nth_takes_the_row_at_that_distance() {
    let mut it = values(5).into_iter();
    assert_eq!(it.nth(0).unwrap().deref().key(), &[b'k', 0]);
    assert_eq!(it.nth(3).unwrap().deref().key(), &[b'k', 4]);
    assert!(it.nth(0).is_none());
}

#[test]
fn nth_back_takes_the_row_at_that_distance() {
    let mut it = values(5).into_iter();
    assert_eq!(it.nth_back(0).unwrap().deref().key(), &[b'k', 4]);
    assert_eq!(it.nth_back(3).unwrap().deref().key(), &[b'k', 0]);
    assert!(it.nth_back(0).is_none());
}

#[test]
fn empty_list_yields_nothing() {
    let list = values(0);
    assert!(list.deref().is_empty());
    let mut it = list.into_iter();
    assert_eq!(it.len(), 0);
    assert!(it.next().is_none());
    assert!(it.next_back().is_none());
}

#[test]
fn bytes_reach_the_view_unchanged() {
    let mut seed = 0x5eed_u64;
    for n in [0usize, 1, 2, 17] {
        let source: Vec<(Vec<u8>, Vec<u8>)> =
            (0..n).map(|_| (noise(&mut seed, 40), noise(&mut seed, 40))).collect();
        let list = FdbValues::try_from(
            handle(),
            0,
            source.iter().map(|(k, v)| FdbKeyValue::new(k.clone(), v.clone())).collect(),
            0,
        )
        .unwrap();
        assert_eq!(list.deref().len(), n);
        assert_eq!(list.as_ref().len(), n);
        for (row, (k, v)) in list.deref().iter().zip(source.iter()) {
            assert_eq!(row.key(), k.as_slice());
            assert_eq!(row.value(), v.as_slice());
        }
        let out = list.into_iter().collect();
        assert_eq!(out.len(), n);
        for (row, (k, v)) in out.iter().zip(source.iter()) {
            assert_eq!(row.as_ref().key(), k.as_slice());
            assert_eq!(row.as_ref().value(), v.as_slice());
        }
    }
}

#[test]
fn empty_key_and_value_are_kept() {
    let list = FdbValues::try_from(handle(), 0, vec![kv(b"", b"")], 0).unwrap();
    assert_eq!(list.deref()[0].key(), b"");
    assert_eq!(list.deref()[0].value(), b"");
}

#[test]
fn rows_outlive_the_iterator_and_release_last() {
    let (calls, h) = counted_handle(0x6000);
    let list = FdbValues::try_from(h, 0, rows(3), 0).unwrap();
    let mut it = list.into_iter();
    let a = it.next().unwrap();
    let c = it.next_back().unwrap();
    drop(it);
    assert_eq!(calls.load(Ordering::SeqCst), 0);
    assert_eq!(a.deref().key(), &[b'k', 0]);
    drop(a);
    assert_eq!(calls.load(Ordering::SeqCst), 0);
    assert_eq!(c.deref().value(), &[b'v', 2, 2]);
    drop(c);
    assert_eq!(calls.load(Ordering::SeqCst), 1);
}

#[test]
fn dropping_a_view_releases_once() {
    let (calls, h) = counted_handle(0x6000);
    let list = FdbValues::try_from(h, 0, rows(3), 0).unwrap();
    assert_eq!(calls.load(Ordering::SeqCst), 0);
    drop(list);
    assert_eq!(calls.load(Ordering::SeqCst), 1);
}

#[test]
fn rows_compare_by_their_bytes() {
    let a = values(3).into_iter().next().unwrap();
    let b = values(3).into_iter().next().unwrap();
    let c = values(3).into_iter().next_back().unwrap();
    assert!(a == b);
    assert!(a != c);
    assert!(kv(b"k", b"v") == kv(b"k", b"v"));
    assert!(kv(b"k", b"v") != kv(b"k", b"w"));
    assert!(kv(b"k", b"v") != kv(b"l", b"v"));
}

#[test]
fn same_bytes_compares_byte_for_byte() {
    assert!(same_bytes(b"", b""));
    assert!(same_bytes(b"abc", b"abc"));
    assert!(!same_bytes(b"abc", b"abd"));
    assert!(!same_bytes(b"abc", b"ab"));
    assert!(!same_bytes(b"", b"a"));
}

#[test]
fn mandatory_buffer_holds_the_bytes() {
    let s = FdbSlice::try_from(handle(), 0, b"hello".to_vec()).unwrap();
    assert_eq!(s.deref(), b"hello");
    assert_eq!(s.as_ref(), b"hello");
    let empty = FdbSlice::try_from(handle(), 0, Vec::new()).unwrap();
    assert!(empty.deref().is_empty());
}

#[test]
fn optional_buffer_is_absent_when_the_flag_is_zero() {
    let r = FdbSlice::try_from_optional(handle(), 0, 0, b"ignored".to_vec()).unwrap();
    assert!(r.is_none());
}

#[test]
fn optional_buffer_is_present_when_the_flag_is_not_zero() {
    let r = FdbSlice::try_from_optional(handle(), 0, 1, b"value".to_vec()).unwrap();
    assert_eq!(r.unwrap().deref(), b"value");
    let r = FdbSlice::try_from_optional(handle(), 0, 1, Vec::new()).unwrap();
    assert!(r.unwrap().deref().is_empty());
}

#[test]
fn absent_buffer_releases_the_resource() {
    let (calls, h) = counted_handle(0x7000);
    let r = FdbSlice::try_from_optional(h, 0, 0, Vec::new()).unwrap();
    assert!(r.is_none());
    assert_eq!(calls.load(Ordering::SeqCst), 1);
}

#[test]
fn integer_is_handed_on() {
    assert_eq!(try_int64(handle(), 0, 42).unwrap(), 42);
    assert_eq!(try_int64(handle(), 0, i64::MIN).unwrap(), i64::MIN);
    assert_eq!(try_int64(handle(), 0, -1).unwrap(), -1);
}

#[test]
fn integer_releases_the_resource() {
    let (calls, h) = counted_handle(0x7000);
    assert_eq!(try_int64(h, 0, 9).unwrap(), 9);
    assert_eq!(calls.load(Ordering::SeqCst), 1);
}

#[test]
fn empty_result_is_success() {
    assert!(try_empty(handle()).is_ok());
}

#[test]
fn addresses_keep_their_bytes() {
    let list = FdbAddresses::try_from(
        handle(),
        0,
        vec![
            FdbAddress::new(b"127.0.0.1:4500".to_vec()),
            FdbAddress::new(Vec::new()),
            FdbAddress::new(b"10.0.0.2:4501".to_vec()),
        ],
    )
    .unwrap();
    assert_eq!(list.deref().len(), 3);
    assert_eq!(list.deref()[0].deref(), b"127.0.0.1:4500");
    assert_eq!(list.deref()[1].as_ref(), b"");
    assert_eq!(list.as_ref()[2].deref(), b"10.0.0.2:4501");
}

#[test]
fn keys_come_out_in_order() {
    let list = FdbKeys::try_from(
        handle(),
        0,
        vec![FdbKey::new(b"a".to_vec()), FdbKey::new(b"b".to_vec()), FdbKey::new(b"c".to_vec())],
    )
    .unwrap();
    assert_eq!(list.deref().len(), 3);
    assert_eq!(list.as_ref()[1].key(), b"b");
    let mut it = list.into_iter();
    assert_eq!(it.size_hint(), (3, Some(3)));
    assert_eq!(it.next().unwrap().deref().key(), b"a");
    assert_eq!(it.size_hint(), (2, Some(2)));
    assert_eq!(it.nth(1).unwrap().as_ref().key(), b"c");
    assert_eq!(it.size_hint(), (0, Some(0)));
    assert!(it.next().is_none());
}

#[test]
fn keys_collect_in_order() {
    let list = FdbKeys::try_from(
        handle(),
        0,
        vec![FdbKey::new(b"a".to_vec()), FdbKey::new(b"b".to_vec()), FdbKey::new(b"c".to_vec())],
    )
    .unwrap();
    let mut it = list.into_iter();
    it.next();
    let out = it.collect();
    assert_eq!(out.len(), 2);
    assert_eq!(out[0].deref().key(), b"b");
    assert_eq!(out[1].deref().key(), b"c");
    assert!(out[0] != out[1]);
    assert!(FdbKey::new(b"b".to_vec()) == FdbKey::new(b"b".to_vec()));
}

#[test]
fn key_rows_outlive_the_iterator_and_release_last() {
    let (calls, h) = counted_handle(0x6000);
    let list = FdbKeys::try_from(h, 0, vec![FdbKey::new(b"a".to_vec())]).unwrap();
    let mut it = list.into_iter();
    let a = it.next().unwrap();
    drop(it);
    assert_eq!(calls.load(Ordering::SeqCst), 0);
    assert_eq!(a.deref().key(), b"a");
    drop(a);
    assert_eq!(calls.load(Ordering::SeqCst), 1);
}

fn mapped_row(tag: u8) -> FdbMappedKeyValue {
    FdbMappedKeyValue::new(
        vec![b'p', tag],
        vec![b'q', tag],
        vec![b'b', tag],
        vec![b'e', tag],
        vec![kv(&[tag, 0], &[0]), kv(&[tag, 1], &[1])],
    )
}

#[test]
fn mapped_rows_carry_parent_bounds_and_range() {
    let list =
        MappedKeyValues::try_from(handle(), 0, vec![mapped_row(1), mapped_row(2)], 1).unwrap();
    assert!(list.more());
    assert_eq!(list.deref().len(), 2);
    assert_eq!(list.as_ref().len(), 2);
    let mut it = list.into_iter();
    assert_eq!(it.len(), 2);
    let last = it.next_back().unwrap();
    assert_eq!(last.deref().parent_key(), &[b'p', 2]);
    assert_eq!(last.deref().parent_value(), &[b'q', 2]);
    assert_eq!(last.deref().begin_range(), &[b'b', 2]);
    assert_eq!(last.deref().end_range(), &[b'e', 2]);
    let range = last.as_ref().key_values();
    assert_eq!(range.len(), 2);
    assert_eq!(range[0].key(), &[2, 0]);
    assert_eq!(range[1].key(), &[2, 1]);
    assert_eq!(range[1].value(), &[1]);
    let first = it.next().unwrap();
    assert_eq!(first.deref().parent_key(), &[b'p', 1]);
    assert!(it.next().is_none());
    assert_eq!(it.size_hint(), (0, Some(0)));
}

#[test]
fn mapped_rows_compare_by_their_parent_pair() {
    let x = || b"x".to_vec();
    let a = FdbMappedKeyValue::new(b"k".to_vec(), b"v".to_vec(), x(), x(), Vec::new());
    let b = FdbMappedKeyValue::new(
        b"k".to_vec(),
        b"v".to_vec(),
        Vec::new(),
        Vec::new(),
        vec![kv(b"r", b"s")],
    );
    let c = FdbMappedKeyValue::new(b"k".to_vec(), b"w".to_vec(), x(), x(), Vec::new());
    assert!(a == b);
    assert!(a != c);
}

#[test]
fn mapped_forward_reversed_is_backward() {
    let make = || {
        MappedKeyValues::try_from(handle(), 0, (0..5u8).map(mapped_row).collect(), 0)
            .unwrap()
            .into_iter()
    };
    let mut forward: Vec<Vec<u8>> =
        make().collect().iter().map(|r| r.deref().parent_key().to_vec()).collect();
    let backward: Vec<Vec<u8>> =
        make().collect_back().iter().map(|r| r.deref().parent_key().to_vec()).collect();
    assert_eq!(forward.len(), 5);
    forward.reverse();
    assert_eq!(forward, backward);
    let mut it = make();
    assert_eq!(it.nth(1).unwrap().deref().parent_key(), &[b'p', 1]);
    assert_eq!(it.nth_back(1).unwrap().deref().parent_key(), &[b'p', 3]);
    assert_eq!(it.len(), 1);
    let x = it.next().unwrap();
    let y = make().nth(2).unwrap();
    assert!(x == y);
}

#[test]
fn mapped_rows_outlive_the_iterator_and_release_last() {
    let (calls, h) = counted_handle(0x6000);
    let list = MappedKeyValues::try_from(h, 0, vec![mapped_row(1), mapped_row(2)], 0).unwrap();
    let mut it = list.into_iter();
    let a = it.next().unwrap();
    let b = it.next().unwrap();
    drop(it);
    drop(a);
    assert_eq!(calls.load(Ordering::SeqCst), 0);
    assert_eq!(b.deref().key_values().len(), 2);
    drop(b);
    assert_eq!(calls.load(Ordering::SeqCst), 1);
}
