//! Structured errors and their mapping to and from the host's negative errno codes.

use vstd::prelude::*;

verus! {

/// "Operation not permitted".
pub const EPERM: i32 = 1;
/// "No such file or directory".
pub const ENOENT: i32 = 2;
/// "I/O error".
pub const EIO: i32 = 5;
/// "Out of memory".
pub const ENOMEM: i32 = 12;
/// "Permission denied".
pub const EACCES: i32 = 13;
/// "Device or resource busy".
pub const EBUSY: i32 = 16;
/// "File exists".
pub const EEXIST: i32 = 17;
/// "Not a directory".
pub const ENOTDIR: i32 = 20;
/// "Is a directory".
pub const EISDIR: i32 = 21;
/// "Invalid argument".
pub const EINVAL: i32 = 22;
/// "No space left on device".
pub const ENOSPC: i32 = 28;
/// "Read-only file system".
pub const EROFS: i32 = 30;
/// "File name too long".
pub const ENAMETOOLONG: i32 = 36;
/// "Directory not empty".
pub const ENOTEMPTY: i32 = 39;
/// "Operation not supported".
pub const EOPNOTSUPP: i32 = 95;

/// The largest errno value the host encodes in a pointer-sized return value.
pub const MAX_ERRNO: i32 = 4095;

/// A failure reported by a plugin or detected while marshalling arguments.
#[derive(Clone, Copy, Debug, PartialEq, Eq, Structural)]
pub enum Error {
    PermissionDenied,
    NotFound,
    Io,
    OutOfMemory,
    AccessDenied,
    Busy,
    AlreadyExists,
    NotDirectory,
    IsDirectory,
    InvalidArgument,
    NoSpace,
    ReadOnly,
    NameTooLong,
    NotEmpty,
    NotSupported,
    /// A host code outside the fixed table below.
    Unknown,
}

/// The host code of each error kind; `Unknown` has no precise code and is
/// reported as an invalid argument.
pub open spec fn errno_of(e: Error) -> int {
    match e {
        Error::PermissionDenied => -EPERM,
        Error::NotFound => -ENOENT,
        Error::Io => -EIO,
        Error::OutOfMemory => -ENOMEM,
        Error::AccessDenied => -EACCES,
        Error::Busy => -EBUSY,
        Error::AlreadyExists => -EEXIST,
        Error::NotDirectory => -ENOTDIR,
        Error::IsDirectory => -EISDIR,
        Error::InvalidArgument => -EINVAL,
        Error::NoSpace => -ENOSPC,
        Error::ReadOnly => -EROFS,
        Error::NameTooLong => -ENAMETOOLONG,
        Error::NotEmpty => -ENOTEMPTY,
        Error::NotSupported => -EOPNOTSUPP,
        Error::Unknown => -EINVAL,
    }
}

/// The error kind of a host code; every code outside the table is `Unknown`.
pub open spec fn error_of(code: int) -> Error {
    if code == -EPERM {
        Error::PermissionDenied
    } else if code == -ENOENT {
        Error::NotFound
    } else if code == -EIO {
        Error::Io
    } else if code == -ENOMEM {
        Error::OutOfMemory
    } else if code == -EACCES {
        Error::AccessDenied
    } else if code == -EBUSY {
        Error::Busy
    } else if code == -EEXIST {
        Error::AlreadyExists
    } else if code == -ENOTDIR {
        Error::NotDirectory
    } else if code == -EISDIR {
        Error::IsDirectory
    } else if code == -EINVAL {
        Error::InvalidArgument
    } else if code == -ENOSPC {
        Error::NoSpace
    } else if code == -EROFS {
        Error::ReadOnly
    } else if code == -ENAMETOOLONG {
        Error::NameTooLong
    } else if code == -ENOTEMPTY {
        Error::NotEmpty
    } else if code == -EOPNOTSUPP {
        Error::NotSupported
    } else {
        Error::Unknown
    }
}

/// The host's status for the outcome of an operation: zero on success, the
/// error's code otherwise.
pub open spec fn status_of(r: Result<(), Error>) -> int {
    match r {
        Ok(()) => 0,
        Err(e) => errno_of(e),
    }
}

/// A value the host accepts as the status of an operation.
pub open spec fn is_status(s: int) -> bool {
    s == 0 || exists|e: Error| s == #[trigger] errno_of(e)
}

/// The pointer-sized value by which the host encodes an error code
/// (the last `MAX_ERRNO` addresses).
pub open spec fn err_ptr_of(code: int) -> usize
    recommends
        -MAX_ERRNO <= code < 0,
{
    (usize::MAX as int + 1 + code) as usize
}

/// Whether a pointer-sized value encodes an error code.
pub open spec fn is_err_ptr(p: usize) -> bool {
    p as int > usize::MAX as int - MAX_ERRNO
}

/// The pointer the host receives for an operation returning an address.
pub open spec fn ptr_status_of(r: Result<usize, Error>) -> usize {
    match r {
        Ok(p) => p,
        Err(e) => err_ptr_of(errno_of(e)),
    }
}

impl Error {
    /// The host code of this error.
    pub fn to_kernel_errno(&self) -> (r: i32)
        ensures
            r == errno_of(*self),
            -MAX_ERRNO <= r < 0,
    {
        match self {
            Error::PermissionDenied => -EPERM,
            Error::NotFound => -ENOENT,
            Error::Io => -EIO,
            Error::OutOfMemory => -ENOMEM,
            Error::AccessDenied => -EACCES,
            Error::Busy => -EBUSY,
            Error::AlreadyExists => -EEXIST,
            Error::NotDirectory => -ENOTDIR,
            Error::IsDirectory => -EISDIR,
            Error::InvalidArgument => -EINVAL,
            Error::NoSpace => -ENOSPC,
            Error::ReadOnly => -EROFS,
            Error::NameTooLong => -ENAMETOOLONG,
            Error::NotEmpty => -ENOTEMPTY,
            Error::NotSupported => -EOPNOTSUPP,
            Error::Unknown => -EINVAL,
        }
    }

    /// The error kind of a host code.
    pub fn from_kernel_errno(code: i32) -> (r: Error)
        ensures
            r == error_of(code as int),
    {
        if code == -EPERM {
            Error::PermissionDenied
        } else if code == -ENOENT {
            Error::NotFound
        } else if code == -EIO {
            Error::Io
        } else if code == -ENOMEM {
            Error::OutOfMemory
        } else if code == -EACCES {
            Error::AccessDenied
        } else if code == -EBUSY {
            Error::Busy
        } else if code == -EEXIST {
            Error::AlreadyExists
        } else if code == -ENOTDIR {
            Error::NotDirectory
        } else if code == -EISDIR {
            Error::IsDirectory
        } else if code == -EINVAL {
            Error::InvalidArgument
        } else if code == -ENOSPC {
            Error::NoSpace
        } else if code == -EROFS {
            Error::ReadOnly
        } else if code == -ENAMETOOLONG {
            Error::NameTooLong
        } else if code == -ENOTEMPTY {
            Error::NotEmpty
        } else if code == -EOPNOTSUPP {
            Error::NotSupported
        } else {
            Error::Unknown
        }
    }
}

/// Turns a status returned by the host into a result: zero is success, any
/// other value the error it names.
pub fn to_result(code: i32) -> (r: Result<(), Error>)
    ensures
        code == 0 ==> r == Ok::<(), Error>(()),
        code != 0 ==> r == Err::<(), Error>(error_of(code as int)),
{
    if code == 0 {
        Ok(())
    } else {
        Err(Error::from_kernel_errno(code))
    }
}

/// Turns the outcome of an operation into the status the host expects.
pub fn from_result(r: Result<(), Error>) -> (s: i32)
    ensures
        s == status_of(r),
        is_status(s as int),
{
    match r {
        Ok(()) => 0,
        Err(e) => e.to_kernel_errno(),
    }
}

/// The host's integer form of a boolean answer: 1 for true, 0 for false.
pub fn bool_to_int(b: bool) -> (r: i32)
    ensures
        r == (if b { 1i32 } else { 0i32 }),
{
    if b {
        1
    } else {
        0
    }
}

/// Encodes an error code as a pointer-sized value, as the host does for
/// operations that return an address.
pub fn err_ptr(code: i32) -> (p: usize)
    requires
        -MAX_ERRNO <= code < 0,
    ensures
        p == err_ptr_of(code as int),
        is_err_ptr(p),
{
    let magnitude: usize = (0 - code) as usize;
    usize::MAX - (magnitude - 1)
}

/// Turns the outcome of an address-returning operation into the value the
/// host expects: the address on success, the encoded error code otherwise.
pub fn ptr_from_result(r: Result<usize, Error>) -> (p: usize)
    ensures
        p == ptr_status_of(r),
        r is Err ==> is_err_ptr(p),
{
    match r {
        Ok(p) => p,
        Err(e) => err_ptr(e.to_kernel_errno()),
    }
}

/// A host code survives a trip through the error kinds: converting an
/// error to its code and back gives a kind with the same code, and the very
/// same kind unless it was `Unknown`.
pub proof fn lemma_errno_round_trip(e: Error)
    ensures
        errno_of(error_of(errno_of(e))) == errno_of(e),
        e != Error::Unknown ==> error_of(errno_of(e)) == e,
        e == Error::Unknown ==> error_of(errno_of(e)) == Error::InvalidArgument,
{
}

/// Every code in the table maps to a kind that maps back to that code.
pub proof fn lemma_known_codes_round_trip(code: int)
    requires
        error_of(code) != Error::Unknown,
    ensures
        errno_of(error_of(code)) == code,
{
}

} // verus!
