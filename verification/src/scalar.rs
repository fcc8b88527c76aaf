//! Results without a payload in foreign memory: nothing at all, and a 64-bit
//! integer. Neither keeps the foreign resource, which goes as soon as the
//! result has been read.

use crate::error::{eval, FdbResult};
use crate::handle::FdbFutureHandle;
use vstd::prelude::*;

verus! {

/// The integer that the foreign accessor reported for `f`: a status other
/// than zero is the error with that code, otherwise the integer is handed on
/// as it came.
pub fn try_int64<R>(f: FdbFutureHandle<R>, status: i32, version: i64) -> (r: FdbResult<i64>)
    ensures
        status == 0 <==> r is Ok,
        r matches Err(e) ==> e@ == status,
        r matches Ok(v) ==> v == version,
{
    match eval(status) {
        Ok(()) => Ok(version),
        Err(e) => Err(e),
    }
}

/// The result of an operation that yields nothing: success, always. No
/// foreign accessor is asked.
pub fn try_empty<R>(_f: FdbFutureHandle<R>) -> (r: FdbResult<()>)
    ensures
        r is Ok,
{
    Ok(())
}

} // verus!
