//! The master half of a pseudo-terminal: how the raw results of the calls
//! made on it (`grantpt(3)`, `unlockpt(3)`, `ptsname_r(3)`, `read(2)`,
//! `write(2)`) are read, and how a slave name is found in a buffer.

use crate::descriptor::DescriptorError;
use vstd::prelude::*;

verus! {

/// The possible errors of the master half.
#[derive(Clone, Copy, Debug, PartialEq, Eq, Structural)]
pub enum MasterError {
    BadDescriptor(DescriptorError),
    GrantptError,
    UnlockptError,
    PtsnameError,
}

impl MasterError {
    /// A short description of the error.
    pub fn description(&self) -> (r: &'static str)
        ensures
            (*self is BadDescriptor) ==> r@ == "the descriptor as occured an error"@,
            *self == MasterError::GrantptError ==> r@
                == "the `grantpt` has a error, errnois set appropriately."@,
            *self == MasterError::UnlockptError ==> r@
                == "the `unlockpt` has a error, errnois set appropriately."@,
            *self == MasterError::PtsnameError ==> r@ == "the `ptsname` has a error"@,
    {
        match *self {
            MasterError::BadDescriptor(_) => "the descriptor as occured an error",
            MasterError::GrantptError => "the `grantpt` has a error, errnois set appropriately.",
            MasterError::UnlockptError => "the `unlockpt` has a error, errnois set appropriately.",
            MasterError::PtsnameError => "the `ptsname` has a error",
        }
    }

    /// The lower-level cause of this error, if any.
    pub fn cause(&self) -> (r: Option<DescriptorError>)
        ensures
            r == match *self {
                MasterError::BadDescriptor(c) => Some(c),
                _ => None::<DescriptorError>,
            },
    {
        match *self {
            MasterError::BadDescriptor(c) => Some(c),
            _ => None,
        }
    }
}

/// The result of opening the master half, from the result of opening its
/// descriptor.
pub fn new_outcome<T>(opened: Result<T, DescriptorError>) -> (r: Result<T, MasterError>)
    ensures
        r == match opened {
            Ok(fd) => Ok::<T, MasterError>(fd),
            Err(c) => Err::<T, MasterError>(MasterError::BadDescriptor(c)),
        },
{
    match opened {
        Err(cause) => Err(MasterError::BadDescriptor(cause)),
        Ok(fd) => Ok(fd),
    }
}

/// The result of `grantpt`, from what `grantpt(3)` returned.
pub fn grantpt_outcome(ret: i32) -> (r: Result<i32, MasterError>)
    ensures
        ret == -1 <==> r == Err::<i32, MasterError>(MasterError::GrantptError),
        ret != -1 <==> r == Ok::<i32, MasterError>(ret),
{
    if ret == -1 {
        Err(MasterError::GrantptError)
    } else {
        Ok(ret)
    }
}

/// The result of `unlockpt`, from what `unlockpt(3)` returned.
pub fn unlockpt_outcome(ret: i32) -> (r: Result<i32, MasterError>)
    ensures
        ret == -1 <==> r == Err::<i32, MasterError>(MasterError::UnlockptError),
        ret != -1 <==> r == Ok::<i32, MasterError>(ret),
{
    if ret == -1 {
        Err(MasterError::UnlockptError)
    } else {
        Ok(ret)
    }
}

/// The result of `ptsname_r`, from what `ptsname_r(3)` returned: 0 is
/// success, anything else an error.
pub fn ptsname_outcome(ret: i32) -> (r: Result<(), MasterError>)
    ensures
        ret == 0 <==> r == Ok::<(), MasterError>(()),
        ret != 0 <==> r == Err::<(), MasterError>(MasterError::PtsnameError),
{
    if ret == 0 {
        Ok(())
    } else {
        Err(MasterError::PtsnameError)
    }
}

/// The number of bytes a read reports, from what `read(2)` returned: a
/// failed read (`-1`) reports that nothing was read.
pub fn read_outcome(ret: isize) -> (r: usize)
    ensures
        r == if ret == -1 { 0 } else { ret as usize },
        ret >= 0 ==> r == ret,
{
    if ret == -1 {
        0
    } else {
        ret as usize
    }
}

/// The number of bytes a write reports, from what `write(2)` returned:
/// `None` for a failed write (`-1`), whose error is then the last OS error.
pub fn write_outcome(ret: isize) -> (r: Option<usize>)
    ensures
        r == if ret == -1 { None::<usize> } else { Some(ret as usize) },
        ret >= 0 ==> r == Some(ret as usize),
{
    if ret == -1 {
        None
    } else {
        Some(ret as usize)
    }
}

/// `i` is the position of the first NUL byte of `buf`.
pub open spec fn is_first_nul(buf: Seq<u8>, i: int) -> bool {
    &&& 0 <= i < buf.len()
    &&& buf[i] == 0
    &&& forall|j: int| 0 <= j < i ==> buf[j] != 0
}

/// `buf` holds no NUL byte.
pub open spec fn has_no_nul(buf: Seq<u8>) -> bool {
    forall|j: int| 0 <= j < buf.len() ==> buf[j] != 0
}

/// The position of the first NUL byte of `buf`, or `None` when it holds none.
pub open spec fn nul_position(buf: Seq<u8>) -> Option<int> {
    if has_no_nul(buf) {
        None
    } else {
        Some(choose|i: int| is_first_nul(buf, i))
    }
}

/// The position of the first NUL byte of `buf`, if it holds one: the length
/// of the NUL-terminated string at its start.
pub fn first_nul(buf: &[u8]) -> (r: Option<usize>)
    ensures
        match r {
            Some(i) => is_first_nul(buf@, i as int),
            None => has_no_nul(buf@),
        },
        match nul_position(buf@) {
            Some(k) => r == Some(k as usize),
            None => r is None,
        },
{
    let mut i: usize = 0;
    while i < buf.len()
        invariant
            i <= buf@.len(),
            forall|j: int| 0 <= j < i ==> buf@[j] != 0,
        decreases buf@.len() - i,
    {
        if buf[i] == 0 {
            proof {
                let k = choose|k: int| is_first_nul(buf@, k);
                assert(is_first_nul(buf@, i as int));
                lemma_first_nul_unique(buf@, k, i as int);
            }
            return Some(i);
        }
        i = i + 1;
    }
    None
}

/// How many bytes of a slave name, read into `name` by the `TIOCPTYGNAME`
/// ioctl, are copied into a caller's buffer of `buflen` bytes: the name with
/// its NUL terminator, or the whole of `name` when it holds no NUL. `None`
/// when that does not fit in the caller's buffer (`ERANGE`).
pub fn name_copy_len(name: &[u8], buflen: usize) -> (r: Option<usize>)
    ensures
        ({
            let len: int = match nul_position(name@) {
                Some(k) => k + 1,
                None => name@.len() as int,
            };
            r == if len <= buflen { Some(len as usize) } else { None::<usize> }
        }),
{
    let n: usize = name.len();
    let len: usize = match first_nul(name) {
        Some(i) => {
            assert(i < n);
            i + 1
        },
        None => name.len(),
    };
    if len > buflen {
        None
    } else {
        Some(len)
    }
}

/// A buffer that holds a NUL byte has a first one.
pub proof fn lemma_first_nul_exists(buf: Seq<u8>)
    requires
        !has_no_nul(buf),
    ensures
        is_first_nul(buf, nul_position(buf)->Some_0),
{
    lemma_first_nul_from(buf, 0);
}

/// A buffer with no NUL byte before `m` and one at or after it has a first
/// NUL byte.
proof fn lemma_first_nul_from(buf: Seq<u8>, m: int)
    requires
        0 <= m <= buf.len(),
        forall|j: int| 0 <= j < m ==> buf[j] != 0,
        !has_no_nul(buf),
    ensures
        exists|i: int| is_first_nul(buf, i),
    decreases buf.len() - m,
{
    if m < buf.len() {
        if buf[m] == 0 {
            assert(is_first_nul(buf, m));
        } else {
            lemma_first_nul_from(buf, m + 1);
        }
    }
}

/// A buffer has at most one first NUL byte.
pub proof fn lemma_first_nul_unique(buf: Seq<u8>, i: int, j: int)
    requires
        is_first_nul(buf, i),
        is_first_nul(buf, j),
    ensures
        i == j,
{
    if i < j {
        assert(buf[i] != 0);
    } else if j < i {
        assert(buf[j] != 0);
    }
}

} // verus!
