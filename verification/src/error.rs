use vstd::prelude::*;

verus! {

/// Why an operation was refused.
#[derive(Clone, Copy, Debug, PartialEq, Eq, Structural)]
pub enum SystemError {
    /// The caller lacks the privilege, or the hardware is locked against it.
    NotPermitted,
    /// A protocol violation: the other side is closed, the peer is locked, or
    /// a second master would be opened.
    IOError,
    /// A user pointer that cannot be read or written.
    Fault,
    /// The name is taken.
    AlreadyExists,
    /// The endpoint or its peer cannot be resolved.
    NoSuchDevice,
    /// The node has no entries to list.
    NotADirectory,
    /// A malformed argument or payload.
    InvalidArgument,
    /// The operation does not exist for this kind of endpoint.
    NotSupported,
}

impl SystemError {
    /// The POSIX error number of this error, as a positive integer.
    pub open spec fn errno(self) -> int {
        match self {
            SystemError::NotPermitted => 1,
            SystemError::IOError => 5,
            SystemError::Fault => 14,
            SystemError::AlreadyExists => 17,
            SystemError::NoSuchDevice => 19,
            SystemError::NotADirectory => 20,
            SystemError::InvalidArgument => 22,
            SystemError::NotSupported => 38,
        }
    }

    /// The value a system call returns for this error: the negated error number.
    pub fn to_posix_errno(self) -> (r: i32)
        ensures
            r == -self.errno(),
    {
        match self {
            SystemError::NotPermitted => -1,
            SystemError::IOError => -5,
            SystemError::Fault => -14,
            SystemError::AlreadyExists => -17,
            SystemError::NoSuchDevice => -19,
            SystemError::NotADirectory => -20,
            SystemError::InvalidArgument => -22,
            SystemError::NotSupported => -38,
        }
    }
}

} // verus!
