//! Byte buffers owned by a completed foreign operation.

use crate::error::{eval, FdbResult};
use crate::handle::FdbFutureHandle;
use vstd::prelude::*;

verus! {

/// A run of bytes owned by a completed foreign operation.
#[derive(Debug)]
pub struct FdbSlice<R> {
    _f: FdbFutureHandle<R>,
    value: Vec<u8>,
}

/// What an accessor of an optional buffer stands for: the error of a status
/// other than zero, otherwise nothing where the presence flag is zero, and
/// the bytes where it is not.
pub open spec fn optional_bytes(status: i32, present: i32, value: Seq<u8>) -> Result<
    Option<Seq<u8>>,
    i32,
> {
    if status != 0 {
        Err(status)
    } else if present == 0 {
        Ok(None)
    } else {
        Ok(Some(value))
    }
}

impl<R> FdbSlice<R> {
    /// The bytes of the buffer.
    pub closed spec fn bytes(&self) -> Seq<u8> {
        self.value@
    }

    /// The address of the foreign resource that the buffer owns.
    pub closed spec fn owner(&self) -> usize {
        self._f.addr()
    }

    /// Builds the buffer from what the foreign accessor of a mandatory buffer
    /// reported for `f`: its status and the bytes. A status other than zero is
    /// the error with that code; otherwise the buffer owns `f` and holds the
    /// bytes unchanged.
    pub fn try_from(f: FdbFutureHandle<R>, status: i32, value: Vec<u8>) -> (r: FdbResult<Self>)
        ensures
            status == 0 <==> r is Ok,
            r matches Err(e) ==> e@ == status,
            r matches Ok(s) ==> s.bytes() == value@ && s.owner() == f.addr(),
    {
        match eval(status) {
            Ok(()) => Ok(FdbSlice { _f: f, value }),
            Err(e) => Err(e),
        }
    }

    /// Builds the optional buffer from what the foreign accessor of an
    /// optional buffer reported for `f`: its status, the presence flag and the
    /// bytes. A status other than zero is the error with that code. Where
    /// the flag is zero there is no buffer, and `f` goes at once; otherwise
    /// the buffer owns `f` and holds the bytes unchanged.
    pub fn try_from_optional(
        f: FdbFutureHandle<R>,
        status: i32,
        present: i32,
        value: Vec<u8>,
    ) -> (r: FdbResult<Option<Self>>)
        ensures
            match optional_bytes(status, present, value@) {
                Err(code) => r matches Err(e) && e@ == code,
                Ok(None) => r matches Ok(None),
                Ok(Some(bytes)) => r matches Ok(Some(s)) && s.bytes() == bytes && s.owner()
                    == f.addr(),
            },
    {
        match eval(status) {
            Ok(()) => Ok(
                if present == 0 {
                    None
                } else {
                    Some(FdbSlice { _f: f, value })
                },
            ),
            Err(e) => Err(e),
        }
    }

    /// The bytes as a slice.
    pub fn deref(&self) -> (s: &[u8])
        ensures
            s@ == self.bytes(),
    {
        self.value.as_slice()
    }

    /// The bytes as a slice.
    pub fn as_ref(&self) -> (s: &[u8])
        ensures
            s@ == self.bytes(),
    {
        self.deref()
    }
}

} // verus!
