use vstd::prelude::*;

verus! {

/// An operating-system error, by its `errno` code.
#[derive(Debug, Copy, Clone, PartialEq, Eq, Structural)]
pub struct OsError {
    pub code: i32,
}

/// The outcome of a system call that returns a negative value on failure:
/// `Err` with the `errno` the call left when `val` is negative, else `val`.
pub fn libc_check_error(val: i64, errno: i32) -> (r: Result<i64, OsError>)
    ensures
        val < 0 ==> r == Err::<i64, OsError>(OsError { code: errno }),
        val >= 0 ==> r == Ok::<i64, OsError>(val),
{
    if val < 0 {
        Err(OsError { code: errno })
    } else {
        Ok(val)
    }
}

} // verus!
