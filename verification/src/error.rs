//! The structured error domain that foreign status codes are mapped into.

use vstd::prelude::*;

verus! {

/// An error of the foreign client, identified by its stable numeric code.
#[derive(Clone, Copy, Debug, PartialEq, Eq, Structural)]
pub struct FdbError {
    error_code: i32,
}

/// The result of an operation that may end in a foreign error.
pub type FdbResult<T> = Result<T, FdbError>;

impl View for FdbError {
    type V = i32;

    /// An error is its numeric code.
    closed spec fn view(&self) -> i32 {
        self.error_code
    }
}

impl FdbError {
    /// The error that carries the given code.
    pub fn from_code(error_code: i32) -> (e: Self)
        ensures
            e@ == error_code,
    {
        FdbError { error_code }
    }

    /// The numeric code of this error.
    pub fn code(&self) -> (c: i32)
        ensures
            c == self@,
    {
        self.error_code
    }
}

/// Reads a foreign status code: success for zero, otherwise the error
/// that carries the code.
pub fn eval(error_code: i32) -> (r: FdbResult<()>)
    ensures
        error_code == 0 <==> r is Ok,
        r matches Err(e) ==> e@ == error_code,
{
    if error_code == 0 {
        Ok(())
    } else {
        Err(FdbError::from_code(error_code))
    }
}

} // verus!
