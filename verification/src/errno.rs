//! Operating-system error numbers, as every fallible operation of this crate
//! reports them.

use vstd::prelude::*;

verus! {

/// Device or resource busy.
pub const EBUSY: i32 = 16;

/// Bad address.
pub const EFAULT: i32 = 14;

/// Invalid argument.
pub const EINVAL: i32 = 22;

/// Input/output error.
pub const EIO: i32 = 5;

/// No such file or directory.
pub const ENOENT: i32 = 2;

/// No space left on device.
pub const ENOSPC: i32 = 28;

/// Value too large for the data type.
pub const EOVERFLOW: i32 = 75;

/// No such device or address.
pub const ENXIO: i32 = 6;

/// An error number reported by the operating system or chosen by this crate
/// to classify a failure.
#[derive(Clone, Copy, Debug, PartialEq, Eq, Structural)]
pub struct Error {
    pub errno: i32,
}

impl Error {
    /// Wraps an error number.
    pub fn new(errno: i32) -> (e: Error)
        ensures
            e.errno == errno,
    {
        Error { errno }
    }

    /// The wrapped error number.
    pub fn errno(&self) -> (n: i32)
        ensures
            n == self.errno,
    {
        self.errno
    }
}

pub type Result<T> = core::result::Result<T, Error>;

/// Trusted: `libc::EBUSY`. Claims that the platform's value is 16, as the
/// Linux headers for x86 and Arm define it.
#[verifier::external_body]
pub(crate) fn ebusy() -> (n: i32)
    ensures
        n == EBUSY,
{
    libc::EBUSY
}

/// Trusted: `libc::EFAULT`. Claims that the platform's value is 14, as the
/// Linux headers for x86 and Arm define it.
#[verifier::external_body]
pub(crate) fn efault() -> (n: i32)
    ensures
        n == EFAULT,
{
    libc::EFAULT
}

/// Trusted: `libc::EINVAL`. Claims that the platform's value is 22, as the
/// Linux headers for x86 and Arm define it.
#[verifier::external_body]
pub(crate) fn einval() -> (n: i32)
    ensures
        n == EINVAL,
{
    libc::EINVAL
}

/// Trusted: `libc::EIO`. Claims that the platform's value is 5, as the Linux
/// headers for x86 and Arm define it.
#[verifier::external_body]
pub(crate) fn eio() -> (n: i32)
    ensures
        n == EIO,
{
    libc::EIO
}

/// Trusted: `libc::ENOENT`. Claims that the platform's value is 2, as the
/// Linux headers for x86 and Arm define it.
#[verifier::external_body]
pub(crate) fn enoent() -> (n: i32)
    ensures
        n == ENOENT,
{
    libc::ENOENT
}

/// Trusted: `libc::ENOSPC`. Claims that the platform's value is 28, as the
/// Linux headers for x86 and Arm define it.
#[verifier::external_body]
pub(crate) fn enospc() -> (n: i32)
    ensures
        n == ENOSPC,
{
    libc::ENOSPC
}

/// Trusted: `libc::EOVERFLOW`. Claims that the platform's value is 75, as the
/// Linux headers for x86 and Arm define it; a few other architectures, on
/// which this crate is of no use, number it otherwise.
#[verifier::external_body]
pub(crate) fn eoverflow() -> (n: i32)
    ensures
        n == EOVERFLOW,
{
    libc::EOVERFLOW
}

/// Trusted: `libc::ENXIO`. Claims that the platform's value is 6, as the
/// Linux headers for x86 and Arm define it.
#[verifier::external_body]
pub(crate) fn enxio() -> (n: i32)
    ensures
        n == ENXIO,
{
    libc::ENXIO
}

/// Turns the return value of a kernel request into a result: zero is
/// success, anything else fails with the error number the kernel left.
pub fn errno_result(ret: i32, errno: i32) -> (r: Result<()>)
    ensures
        r == (if ret == 0 {
            Ok::<(), Error>(())
        } else {
            Err::<(), Error>(Error { errno })
        }),
{
    if ret == 0 {
        Ok(())
    } else {
        Err(Error::new(errno))
    }
}

} // verus!
