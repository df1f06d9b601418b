use vstd::prelude::*;

verus! {

/// An error number reported by the kernel for a failed request.
#[derive(Clone, Copy, Debug, PartialEq, Eq, Structural)]
pub struct Error {
    pub errno: i32,
}

/// Relies on libc::EINVAL: the "invalid argument" error number of Linux.
#[verifier::external_body]
fn einval() -> (r: i32)
    ensures
        r == 22,
{
    libc::EINVAL
}

/// Relies on libc::ENOSPC: the "no space left" error number of Linux.
#[verifier::external_body]
fn enospc() -> (r: i32)
    ensures
        r == 28,
{
    libc::ENOSPC
}

impl Error {
    /// Wraps the given error number.
    pub fn new(errno: i32) -> (r: Error)
        ensures
            r.errno == errno,
    {
        Error { errno }
    }

    /// The error number this error carries.
    pub fn errno(&self) -> (r: i32)
        ensures
            r == self.errno,
    {
        self.errno
    }

    /// The error for a malformed argument or a malformed kernel answer.
    pub fn invalid_argument() -> (r: Error)
        ensures
            r.errno == 22,
    {
        Error { errno: einval() }
    }

    /// The error for a control block that could not be mapped.
    pub fn mapping_failed() -> (r: Error)
        ensures
            r.errno == 28,
    {
        Error { errno: enospc() }
    }
}

/// The outcome of a request whose only success value is zero.
pub fn check_zero(ret: i32, errno: i32) -> (r: Result<(), Error>)
    ensures
        ret == 0 <==> r is Ok,
        ret != 0 ==> r == Err::<(), Error>(Error { errno }),
{
    if ret == 0 {
        Ok(())
    } else {
        Err(Error::new(errno))
    }
}

/// The outcome of a request that signals failure with a negative result.
///
/// A non-negative result (a count of items handled, for some requests) counts
/// as full success.
pub fn check_non_negative(ret: i32, errno: i32) -> (r: Result<(), Error>)
    ensures
        ret >= 0 <==> r is Ok,
        ret < 0 ==> r == Err::<(), Error>(Error { errno }),
{
    if ret >= 0 {
        Ok(())
    } else {
        Err(Error::new(errno))
    }
}

/// The outcome of a request that returns a new file descriptor.
pub fn check_fd(ret: i32, errno: i32) -> (r: Result<i32, Error>)
    ensures
        ret >= 0 <==> r is Ok,
        ret >= 0 ==> r == Ok::<i32, Error>(ret),
        ret < 0 ==> r == Err::<i32, Error>(Error { errno }),
{
    if ret >= 0 {
        Ok(ret)
    } else {
        Err(Error::new(errno))
    }
}

} // verus!
