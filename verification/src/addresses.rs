//! Address lists owned by a completed foreign operation.

use crate::error::{eval, FdbResult};
use crate::handle::FdbFutureHandle;
use vstd::prelude::*;

verus! {

/// One address of a list: the bytes of its string, without a terminator.
///
/// An address is only ever read through the list that it is from.
#[derive(Debug)]
pub struct FdbAddress {
    c_str: Vec<u8>,
}

impl FdbAddress {
    /// The bytes of the address.
    pub closed spec fn bytes(&self) -> Seq<u8> {
        self.c_str@
    }

    /// The address of the given bytes.
    pub fn new(c_str: Vec<u8>) -> (a: Self)
        ensures
            a.bytes() == c_str@,
    {
        FdbAddress { c_str }
    }

    /// The bytes of the address, read in place.
    pub fn deref(&self) -> (s: &[u8])
        ensures
            s@ == self.bytes(),
    {
        self.c_str.as_slice()
    }

    /// The bytes of the address, read in place.
    pub fn as_ref(&self) -> (s: &[u8])
        ensures
            s@ == self.bytes(),
    {
        self.deref()
    }
}

/// A list of addresses owned by a completed foreign operation.
#[derive(Debug)]
pub struct FdbAddresses<R> {
    _f: FdbFutureHandle<R>,
    strings: Vec<FdbAddress>,
}

impl<R> FdbAddresses<R> {
    /// The addresses of the list, in the order in which the foreign side gave
    /// them.
    pub closed spec fn rows(&self) -> Seq<FdbAddress> {
        self.strings@
    }

    /// The address of the foreign resource that the list owns.
    pub closed spec fn owner(&self) -> usize {
        self._f.addr()
    }

    /// Builds the list from what the foreign accessor reported for `f`: its
    /// status and the addresses. A status other than zero is the error with
    /// that code; otherwise the list owns `f` and holds the addresses
    /// unchanged.
    pub fn try_from(f: FdbFutureHandle<R>, status: i32, strings: Vec<FdbAddress>) -> (r: FdbResult<
        Self,
    >)
        ensures
            status == 0 <==> r is Ok,
            r matches Err(e) ==> e@ == status,
            r matches Ok(v) ==> v.rows() == strings@ && v.owner() == f.addr(),
    {
        match eval(status) {
            Ok(()) => Ok(FdbAddresses { _f: f, strings }),
            Err(e) => Err(e),
        }
    }

    /// The addresses as a slice.
    pub fn deref(&self) -> (s: &[FdbAddress])
        ensures
            s@ == self.rows(),
    {
        self.strings.as_slice()
    }

    /// The addresses as a slice.
    pub fn as_ref(&self) -> (s: &[FdbAddress])
        ensures
            s@ == self.rows(),
    {
        self.deref()
    }
}

} // verus!
