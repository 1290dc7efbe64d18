//! The slave half of a pseudo-terminal: how the raw result of `dup2(2)` on
//! it is read.

use crate::descriptor::DescriptorError;
use vstd::prelude::*;

verus! {

/// The possible errors of the slave half.
#[derive(Clone, Copy, Debug, PartialEq, Eq, Structural)]
pub enum SlaveError {
    BadDescriptor(DescriptorError),
    Dup2Error,
}

impl SlaveError {
    /// A short description of the error.
    pub fn description(&self) -> (r: &'static str)
        ensures
            (*self is BadDescriptor) ==> r@ == "the descriptor as occured an error"@,
            *self == SlaveError::Dup2Error ==> r@
                == "the `dup2` has a error, errno isset appropriately."@,
    {
        match *self {
            SlaveError::BadDescriptor(_) => "the descriptor as occured an error",
            SlaveError::Dup2Error => "the `dup2` has a error, errno isset appropriately.",
        }
    }

    /// The lower-level cause of this error, if any.
    pub fn cause(&self) -> (r: Option<DescriptorError>)
        ensures
            r == match *self {
                SlaveError::BadDescriptor(c) => Some(c),
                _ => None::<DescriptorError>,
            },
    {
        match *self {
            SlaveError::BadDescriptor(c) => Some(c),
            _ => None,
        }
    }
}

/// How the slave half is opened.
#[derive(Clone, Copy, Debug, PartialEq, Eq, Structural)]
pub enum OpenMode {
    /// Read-write; a session leader without a controlling terminal that
    /// opens it gets it as its controlling terminal.
    ReadWrite,
    /// Read-write, without ever making it the controlling terminal of the
    /// process that opens it (`O_NOCTTY`).
    ReadWriteNoCtty,
}

/// The result of opening the slave half, from the result of opening its
/// descriptor.
pub fn new_outcome<T>(opened: Result<T, DescriptorError>) -> (r: Result<T, SlaveError>)
    ensures
        r == match opened {
            Ok(fd) => Ok::<T, SlaveError>(fd),
            Err(c) => Err::<T, SlaveError>(SlaveError::BadDescriptor(c)),
        },
{
    match opened {
        Err(cause) => Err(SlaveError::BadDescriptor(cause)),
        Ok(fd) => Ok(fd),
    }
}

/// The result of `dup2`, from what `dup2(2)` returned.
pub fn dup2_outcome(ret: i32) -> (r: Result<i32, SlaveError>)
    ensures
        ret == -1 <==> r == Err::<i32, SlaveError>(SlaveError::Dup2Error),
        ret != -1 <==> r == Ok::<i32, SlaveError>(ret),
{
    if ret == -1 {
        Err(SlaveError::Dup2Error)
    } else {
        Ok(ret)
    }
}

} // verus!
