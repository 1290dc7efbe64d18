//! Opening a file as a descriptor: how the raw result of `open(2)` is read.

use vstd::prelude::*;

verus! {

/// The possible errors from opening a descriptor.
#[derive(Clone, Copy, Debug, PartialEq, Eq, Structural)]
pub enum DescriptorError {
    /// Can't open.
    OpenFail,
    /// Can't closed.
    CloseFail,
}

impl DescriptorError {
    /// A short description of the error.
    pub fn description(&self) -> (r: &'static str)
        ensures
            *self == DescriptorError::OpenFail ==> r@ == "can't open the fd"@,
            *self == DescriptorError::CloseFail ==> r@ == "can't close the fd"@,
    {
        match *self {
            DescriptorError::OpenFail => "can't open the fd",
            DescriptorError::CloseFail => "can't close the fd",
        }
    }
}

/// The mode handed to `open(2)`: the given one, or 0 when there is none.
pub fn open_mode(mode: Option<i32>) -> (r: i32)
    ensures
        r == match mode {
            Some(m) => m,
            None => 0,
        },
{
    match mode {
        Some(m) => m,
        None => 0,
    }
}

/// The result of opening a descriptor, from what `open(2)` returned:
/// `-1` means the open failed, anything else is the new descriptor.
pub fn open_outcome(ret: i32) -> (r: Result<i32, DescriptorError>)
    ensures
        ret == -1 <==> r == Err::<i32, DescriptorError>(DescriptorError::OpenFail),
        ret != -1 <==> r == Ok::<i32, DescriptorError>(ret),
{
    if ret == -1 {
        Err(DescriptorError::OpenFail)
    } else {
        Ok(ret)
    }
}

} // verus!
