use vstd::prelude::*;

verus! {

/// `FI_EADDRNOTAVAIL`: cannot assign the requested address.
pub const FI_EADDRNOTAVAIL: u32 = 99;

/// `FI_EAGAIN`: the operation would block, try again.
pub const FI_EAGAIN: u32 = 11;

/// `FI_ETOOSMALL`: a provided buffer is too small.
pub const FI_ETOOSMALL: u32 = 257;

/// `FI_ENOKEY`: a required key is not available.
pub const FI_ENOKEY: u32 = 266;

/// An error reported by libfabric, identified by its (positive) error number.
#[derive(Clone, Copy, Debug, PartialEq, Eq, Structural)]
pub struct Error {
    pub code: u32,
}

impl Error {
    /// Builds the error that corresponds to the libfabric error number `code`.
    pub fn from_err_code(code: u32) -> (r: Error)
        ensures
            r.code == code,
    {
        Error { code }
    }

    /// The libfabric error number of this error.
    pub fn code(&self) -> (r: u32)
        ensures
            r == self.code,
    {
        self.code
    }
}

/// Whether `err` is a return code that the library can turn into a result:
/// zero, or the negation of an error number.
pub open spec fn valid_return_code(err: int) -> bool {
    -(u32::MAX as int) <= err <= 0
}

/// The result that a libfabric return code stands for: success for zero,
/// and otherwise the error whose number is the negated code.
pub open spec fn spec_check_error(err: int) -> Result<(), Error> {
    if err == 0 {
        Ok(())
    } else {
        Err(Error { code: (-err) as u32 })
    }
}

/// Turns the return code of a libfabric call into a `Result`.
pub fn check_error(err: isize) -> (r: Result<(), Error>)
    requires
        valid_return_code(err as int),
    ensures
        r == spec_check_error(err as int),
{
    if err != 0 {
        Err(Error::from_err_code((-(err as i64)) as u32))
    } else {
        Ok(())
    }
}

/// Turns the return code of a libfabric call that returns `int` into a `Result`.
pub fn check_error_i32(err: i32) -> (r: Result<(), Error>)
    requires
        valid_return_code(err as int),
    ensures
        r == spec_check_error(err as int),
{
    if err != 0 {
        Err(Error::from_err_code((-(err as i64)) as u32))
    } else {
        Ok(())
    }
}

/// The value produced by a libfabric call that returned `ret`, where only negative
/// values report errors: the error that a negative value names, and `value` otherwise.
pub open spec fn spec_nonnegative_outcome<T>(ret: int, value: T) -> Result<T, Error> {
    if ret < 0 {
        Err(Error { code: (-ret) as u32 })
    } else {
        Ok(value)
    }
}

/// The result of a libfabric call that reports errors as negative values (such as
/// `fi_cq_readerr` or `fi_control` with `FI_GETWAIT`), which returned `ret` and
/// produced `value`.
pub fn nonnegative_outcome<T>(ret: isize, value: T) -> (r: Result<T, Error>)
    requires
        ret < 0 ==> valid_return_code(ret as int),
    ensures
        r == spec_nonnegative_outcome(ret as int, value),
{
    if ret < 0 {
        Err(Error::from_err_code((-(ret as i64)) as u32))
    } else {
        Ok(value)
    }
}

} // verus!
