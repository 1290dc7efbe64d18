//! Forking a program onto a fresh pseudo-terminal.
//!
//! A fork is a sequence of system calls, each of which may fail. `ForkState`
//! is the position in that sequence; `ForkState::action` is what has to be
//! done next, and `ForkState::step` takes what that call returned
//! (a `ForkEvent`) to the next position. The caller performs the actions.
//!
//! All the work that might touch the allocator (opening the master and the
//! slave halves, resolving the name of the slave) is asked for before the
//! fork. In the child, everything asked for until control is handed back is
//! a `close(2)`, `setsid(2)`, `ioctl(2)` or `dup2(2)`, which are
//! async-signal-safe.

pub mod laws;
pub mod pty;

use crate::descriptor::DescriptorError;
use crate::fork::pty::master::{first_nul, has_no_nul, nul_position, MasterError};
use crate::fork::pty::slave::{OpenMode, SlaveError};
use vstd::prelude::*;
use vstd::string::StringSliceAdditionalSpecFns;

verus! {

/// The size of the buffer that the slave's name is read into.
pub const MAX_PTS_NAME: usize = 1024;

/// The possible errors of a fork.
#[derive(Clone, Copy, Debug, PartialEq, Eq, Structural)]
pub enum ForkError {
    /// Can't creates the child.
    Failure,
    /// Can't set the id group.
    SetsidFail,
    /// Can't make the pty the controlling terminal of the child.
    SetcttyFail,
    /// Can't suspending the calling process.
    WaitpidFail,
    /// Is child and not parent.
    IsChild,
    /// Is parent and not child.
    IsParent,
    /// The Master occured a error.
    BadMaster(MasterError),
    /// The Slave occured a error.
    BadSlave(SlaveError),
    /// The Master's Descriptor occured a error.
    BadDescriptorMaster(DescriptorError),
    /// The Slave's Descriptor occured a error.
    BadDescriptorSlave(DescriptorError),
}

/// The lower-level cause of a `ForkError`.
#[derive(Clone, Copy, Debug, PartialEq, Eq, Structural)]
pub enum ForkErrorCause {
    Master(MasterError),
    Slave(SlaveError),
    Descriptor(DescriptorError),
}

impl ForkError {
    /// A short description of the error.
    pub fn description(&self) -> (r: &'static str)
        ensures
            *self == ForkError::Failure ==> r@
                == "On failure, -1 is returned in the parent,no child process is created, and errno isset appropriately."@,
            *self == ForkError::SetsidFail ==> r@
                == "fails if the calling process is alreadya process group leader."@,
            *self == ForkError::SetcttyFail ==> r@
                == "the `TIOCSCTTY` ioctl failed, so the child has no controlling terminal."@,
            *self == ForkError::WaitpidFail ==> r@ == "Can't suspending the calling process."@,
            *self == ForkError::IsChild ==> r@ == "is child and not parent"@,
            *self == ForkError::IsParent ==> r@ == "is parent and not child"@,
            (*self is BadMaster) ==> r@ == "the master as occured an error"@,
            (*self is BadSlave) ==> r@ == "the slave as occured an error"@,
            (*self is BadDescriptorMaster) ==> r@ == "the master's descriptor as occured an error"@,
            (*self is BadDescriptorSlave) ==> r@ == "the slave's descriptor as occured an error"@,
    {
        match *self {
            ForkError::Failure => {
                "On failure, -1 is returned in the parent,no child process is created, and errno isset appropriately."
            },
            ForkError::SetsidFail => "fails if the calling process is alreadya process group leader.",
            ForkError::SetcttyFail => {
                "the `TIOCSCTTY` ioctl failed, so the child has no controlling terminal."
            },
            ForkError::WaitpidFail => "Can't suspending the calling process.",
            ForkError::IsChild => "is child and not parent",
            ForkError::IsParent => "is parent and not child",
            ForkError::BadMaster(_) => "the master as occured an error",
            ForkError::BadSlave(_) => "the slave as occured an error",
            ForkError::BadDescriptorMaster(_) => "the master's descriptor as occured an error",
            ForkError::BadDescriptorSlave(_) => "the slave's descriptor as occured an error",
        }
    }

    /// The lower-level cause of this error, if any.
    pub fn cause(&self) -> (r: Option<ForkErrorCause>)
        ensures
            r == match *self {
                ForkError::BadMaster(c) => Some(ForkErrorCause::Master(c)),
                ForkError::BadSlave(c) => Some(ForkErrorCause::Slave(c)),
                ForkError::BadDescriptorMaster(c) => Some(ForkErrorCause::Descriptor(c)),
                ForkError::BadDescriptorSlave(c) => Some(ForkErrorCause::Descriptor(c)),
                _ => None::<ForkErrorCause>,
            },
    {
        match *self {
            ForkError::BadMaster(c) => Some(ForkErrorCause::Master(c)),
            ForkError::BadSlave(c) => Some(ForkErrorCause::Slave(c)),
            ForkError::BadDescriptorMaster(c) => Some(ForkErrorCause::Descriptor(c)),
            ForkError::BadDescriptorSlave(c) => Some(ForkErrorCause::Descriptor(c)),
            _ => None,
        }
    }
}

/// The path that a fork on `path` opens as the master half: `path` itself,
/// or, when it holds a NUL byte (which a C string cannot), the empty path,
/// which then fails to open.
pub fn master_path(path: &str) -> (r: &str)
    ensures
        has_no_nul(path.spec_bytes()) ==> r@ == path@,
        !has_no_nul(path.spec_bytes()) ==> r@ == ""@,
{
    match first_nul(path.as_bytes()) {
        None => path,
        Some(_) => "",
    }
}

/// The result of a fork, on either side of it: the parent holds the child's
/// pid and the master half of the pty, the child holds the slave half.
#[derive(Debug, Clone)]
pub enum Fork<M, S> {
    Parent(i32, M),
    Child(S),
}

impl<M: Clone, S> Fork<M, S> {
    /// The pid of the child in the parent, `None` in the child.
    pub fn child_pid(&self) -> (r: Option<i32>)
        ensures
            r == match *self {
                Fork::Parent(pid, _) => Some(pid),
                Fork::Child(_) => None::<i32>,
            },
    {
        match *self {
            Fork::Child(_) => None,
            Fork::Parent(pid, _) => Some(pid),
        }
    }

    /// A handle on the master half in the parent; `IsChild` in the child.
    pub fn is_parent(&self) -> (r: Result<M, ForkError>)
        ensures
            match *self {
                Fork::Parent(_, master) => r matches Ok(m) && cloned(master, m),
                Fork::Child(_) => r == Err::<M, ForkError>(ForkError::IsChild),
            },
    {
        match self {
            Fork::Child(_) => Err(ForkError::IsChild),
            Fork::Parent(_, master) => Ok(master.clone()),
        }
    }

    /// The slave half in the child; `IsParent` in the parent.
    pub fn is_child(&self) -> (r: Result<&S, ForkError>)
        ensures
            match *self {
                Fork::Parent(_, _) => r == Err::<&S, ForkError>(ForkError::IsParent),
                Fork::Child(slave) => r == Ok::<&S, ForkError>(&slave),
            },
    {
        match self {
            Fork::Parent(_, _) => Err(ForkError::IsParent),
            Fork::Child(slave) => Ok(slave),
        }
    }

    /// The pid that waiting for the child waits on: the child's pid in the
    /// parent; `IsChild` in the child, which has nothing to wait for.
    pub fn waited_pid(&self) -> (r: Result<i32, ForkError>)
        ensures
            r == match *self {
                Fork::Parent(pid, _) => Ok::<i32, ForkError>(pid),
                Fork::Child(_) => Err::<i32, ForkError>(ForkError::IsChild),
            },
    {
        match *self {
            Fork::Child(_) => Err(ForkError::IsChild),
            Fork::Parent(pid, _) => Ok(pid),
        }
    }
}

/// A wait status reports a normal exit: its low seven bits are 0.
pub open spec fn exited_normally(status: i32) -> bool {
    (status & 0x7f) == 0
}

/// The exit code a wait status reports: its second byte.
pub open spec fn exit_code(status: i32) -> i32 {
    (status >> 8) & 0xff
}

/// Whether a wait status reports a normal exit: what `libc::WIFEXITED`
/// computes on Linux and on macOS, `(status & 0x7f) == 0`, a formula short
/// enough to be written and proved here.
fn wifexited(status: i32) -> (r: bool)
    ensures
        r == exited_normally(status),
{
    (status & 0x7f) == 0
}

/// The exit code of a wait status: what `libc::WEXITSTATUS` computes on
/// Linux and on macOS, `(status >> 8) & 0xff`, a formula short enough to be
/// written and proved here.
fn wexitstatus(status: i32) -> (r: i32)
    ensures
        r == exit_code(status),
{
    (status >> 8) & 0xff
}

/// What one `waitpid(2)` on `pid` decides, from what it returned (`ret`) and
/// the status it wrote: `None` when the wait has to be made again (it
/// returned 0); `WaitpidFail` when it failed (-1); otherwise the pid with the
/// child's exit code if it exited normally, `None` in its place if not.
pub fn wait_outcome(pid: i32, ret: i32, status: i32) -> (r: Option<Result<(i32, Option<i32>), ForkError>>)
    ensures
        ret == 0 ==> r is None,
        ret == -1 ==> r == Some(Err::<(i32, Option<i32>), ForkError>(ForkError::WaitpidFail)),
        ret != 0 && ret != -1 ==> r == Some(
            Ok::<(i32, Option<i32>), ForkError>(
                (
                    pid,
                    if exited_normally(status) {
                        Some(exit_code(status))
                    } else {
                        None::<i32>
                    },
                ),
            ),
        ),
{
    if ret == 0 {
        None
    } else if ret == -1 {
        Some(Err(ForkError::WaitpidFail))
    } else if wifexited(status) {
        Some(Ok((pid, Some(wexitstatus(status)))))
    } else {
        Some(Ok((pid, None)))
    }
}

/// One of the standard streams of the child, which the slave is duplicated
/// onto.
#[derive(Clone, Copy, Debug, PartialEq, Eq, Structural)]
pub enum StdStream {
    Input,
    Output,
    Error,
}

/// How a fork ends.
#[derive(Clone, Copy, Debug, PartialEq, Eq, Structural)]
pub enum ForkOutcome {
    /// In the parent, with the child's pid: the slave half is dropped and
    /// the master half kept.
    Parent(i32),
    /// In the child, with the slave half as controlling terminal and
    /// standard streams.
    Child,
    /// The fork failed with this error.
    Failed(ForkError),
}

/// What has to be done next in a fork.
#[derive(Clone, Copy, Debug, PartialEq, Eq, Structural)]
pub enum ForkAction {
    /// Open the multiplexer's path (read-write) as the master half.
    OpenMaster,
    /// `grantpt(3)` on the master half.
    Grantpt,
    /// `unlockpt(3)` on the master half.
    Unlockpt,
    /// `ptsname_r(3)` on the master half, into a zeroed buffer of
    /// `MAX_PTS_NAME` bytes.
    Ptsname,
    /// Open, in this mode, the slave whose name is the first bytes of that
    /// buffer, up to the NUL byte at this position.
    OpenSlave(usize, OpenMode),
    /// `fork(2)`.
    Fork,
    /// In the child: give up the master half without freeing it, and
    /// `close(2)` its descriptor.
    CloseMaster,
    /// In the child: `setsid(2)`.
    Setsid,
    /// In the child: the `TIOCSCTTY` `ioctl(2)` on the slave half.
    ClaimTerminal,
    /// In the child: `dup2(2)` of the slave half onto this stream.
    Dup2(StdStream),
    /// In the parent: drop the slave half, so that reads on the master see
    /// the end of the file once the child exits.
    DropSlave,
    /// Hand control back with this outcome.
    Return(ForkOutcome),
}

impl ForkAction {
    /// A call that the child of a fork may make before it `exec`s: one of
    /// `close(2)`, `setsid(2)`, `ioctl(2)`, `dup2(2)`.
    pub open spec fn async_signal_safe(self) -> bool {
        match self {
            ForkAction::CloseMaster => true,
            ForkAction::Setsid => true,
            ForkAction::ClaimTerminal => true,
            ForkAction::Dup2(_) => true,
            _ => false,
        }
    }

    /// An action that uses the master half.
    pub open spec fn uses_master(self) -> bool {
        match self {
            ForkAction::Grantpt => true,
            ForkAction::Unlockpt => true,
            ForkAction::Ptsname => true,
            ForkAction::CloseMaster => true,
            ForkAction::Return(ForkOutcome::Parent(_)) => true,
            _ => false,
        }
    }

    /// An action that uses the slave half.
    pub open spec fn uses_slave(self) -> bool {
        match self {
            ForkAction::ClaimTerminal => true,
            ForkAction::Dup2(_) => true,
            ForkAction::DropSlave => true,
            ForkAction::Return(ForkOutcome::Child) => true,
            _ => false,
        }
    }

    /// Work that may touch the allocator, which is only done before the
    /// fork.
    pub open spec fn prepares(self) -> bool {
        match self {
            ForkAction::OpenMaster => true,
            ForkAction::Grantpt => true,
            ForkAction::Unlockpt => true,
            ForkAction::Ptsname => true,
            ForkAction::OpenSlave(_, _) => true,
            _ => false,
        }
    }
}

/// What an action of a fork returned.
#[derive(Clone, Copy, Debug)]
pub enum ForkEvent<'a> {
    /// The result of opening the master half.
    MasterOpened(Result<(), MasterError>),
    /// The result of `grantpt`.
    Granted(Result<i32, MasterError>),
    /// The result of `unlockpt`.
    Unlocked(Result<i32, MasterError>),
    /// The result of `ptsname_r`, and the buffer it wrote.
    NameWritten(Result<(), MasterError>, &'a [u8]),
    /// The result of opening the slave half.
    SlaveOpened(Result<(), SlaveError>),
    /// What `fork(2)` returned.
    Forked(i32),
    /// The master's descriptor was closed in the child.
    MasterClosed,
    /// What `setsid(2)` returned.
    SessionCreated(i32),
    /// What the `TIOCSCTTY` `ioctl(2)` returned.
    TerminalClaimed(i32),
    /// The result of `dup2` of the slave half.
    Duplicated(Result<i32, SlaveError>),
    /// The slave half was dropped in the parent.
    SlaveDropped,
}

/// Where a fork stands: the event it waits for, with what it has kept of
/// the earlier ones, or how it ended.
#[derive(Clone, Copy, Debug, PartialEq, Eq, Structural)]
pub enum ForkState {
    AwaitMaster,
    AwaitGrant,
    /// With the error of `grantpt`, if it failed.
    AwaitUnlock(Option<MasterError>),
    AwaitName,
    /// With the length of the slave's name.
    AwaitSlave(usize),
    AwaitFork,
    AwaitMasterClose,
    AwaitSession,
    AwaitTerminal,
    /// With the first error of the earlier `dup2` calls, if any.
    AwaitDup(StdStream, Option<SlaveError>),
    /// In the parent, with the child's pid.
    AwaitSlaveDrop(i32),
    Finished(ForkOutcome),
}

/// The error of a result, if it is one.
pub open spec fn error_of<T, E>(r: Result<T, E>) -> Option<E> {
    match r {
        Ok(_) => None,
        Err(e) => Some(e),
    }
}

/// The first of two possible errors.
pub open spec fn first_error<E>(a: Option<E>, b: Option<E>) -> Option<E> {
    match a {
        Some(e) => Some(e),
        None => b,
    }
}

impl ForkState {
    /// The action that a fork asks for in this state.
    pub open spec fn action(self) -> ForkAction {
        match self {
            ForkState::AwaitMaster => ForkAction::OpenMaster,
            ForkState::AwaitGrant => ForkAction::Grantpt,
            ForkState::AwaitUnlock(_) => ForkAction::Unlockpt,
            ForkState::AwaitName => ForkAction::Ptsname,
            ForkState::AwaitSlave(n) => ForkAction::OpenSlave(n, OpenMode::ReadWriteNoCtty),
            ForkState::AwaitFork => ForkAction::Fork,
            ForkState::AwaitMasterClose => ForkAction::CloseMaster,
            ForkState::AwaitSession => ForkAction::Setsid,
            ForkState::AwaitTerminal => ForkAction::ClaimTerminal,
            ForkState::AwaitDup(s, _) => ForkAction::Dup2(s),
            ForkState::AwaitSlaveDrop(_) => ForkAction::DropSlave,
            ForkState::Finished(o) => ForkAction::Return(o),
        }
    }

    /// The state after `event`. An event that does not answer the action of
    /// this state leaves it unchanged.
    pub open spec fn next(self, event: ForkEvent) -> ForkState {
        match (self, event) {
            (ForkState::AwaitMaster, ForkEvent::MasterOpened(r)) => match r {
                Err(c) => ForkState::Finished(ForkOutcome::Failed(ForkError::BadMaster(c))),
                Ok(_) => ForkState::AwaitGrant,
            },
            (ForkState::AwaitGrant, ForkEvent::Granted(r)) => ForkState::AwaitUnlock(error_of(r)),
            (ForkState::AwaitUnlock(g), ForkEvent::Unlocked(r)) => match first_error(g, error_of(r)) {
                Some(c) => ForkState::Finished(ForkOutcome::Failed(ForkError::BadMaster(c))),
                None => ForkState::AwaitName,
            },
            (ForkState::AwaitName, ForkEvent::NameWritten(r, buf)) => match r {
                Err(c) => ForkState::Finished(ForkOutcome::Failed(ForkError::BadMaster(c))),
                Ok(_) => match nul_position(buf@) {
                    Some(n) => ForkState::AwaitSlave(n as usize),
                    None => ForkState::Finished(
                        ForkOutcome::Failed(ForkError::BadMaster(MasterError::PtsnameError)),
                    ),
                },
            },
            (ForkState::AwaitSlave(_), ForkEvent::SlaveOpened(r)) => match r {
                Err(c) => ForkState::Finished(ForkOutcome::Failed(ForkError::BadSlave(c))),
                Ok(_) => ForkState::AwaitFork,
            },
            (ForkState::AwaitFork, ForkEvent::Forked(pid)) => if pid == -1 {
                ForkState::Finished(ForkOutcome::Failed(ForkError::Failure))
            } else if pid == 0 {
                ForkState::AwaitMasterClose
            } else {
                ForkState::AwaitSlaveDrop(pid)
            },
            (ForkState::AwaitMasterClose, ForkEvent::MasterClosed) => ForkState::AwaitSession,
            (ForkState::AwaitSlaveDrop(pid), ForkEvent::SlaveDropped) => ForkState::Finished(
                ForkOutcome::Parent(pid),
            ),
            (ForkState::AwaitSession, ForkEvent::SessionCreated(ret)) => if ret == -1 {
                ForkState::Finished(ForkOutcome::Failed(ForkError::SetsidFail))
            } else {
                ForkState::AwaitTerminal
            },
            (ForkState::AwaitTerminal, ForkEvent::TerminalClaimed(ret)) => if ret == -1 {
                ForkState::Finished(ForkOutcome::Failed(ForkError::SetcttyFail))
            } else {
                ForkState::AwaitDup(StdStream::Input, None)
            },
            (ForkState::AwaitDup(s, e), ForkEvent::Duplicated(r)) => {
                let e2 = first_error(e, error_of(r));
                match s {
                    StdStream::Input => ForkState::AwaitDup(StdStream::Output, e2),
                    StdStream::Output => ForkState::AwaitDup(StdStream::Error, e2),
                    StdStream::Error => match e2 {
                        Some(c) => ForkState::Finished(ForkOutcome::Failed(ForkError::BadSlave(c))),
                        None => ForkState::Finished(ForkOutcome::Child),
                    },
                }
            },
            _ => self,
        }
    }

    /// The state after each of `events` in turn.
    pub open spec fn run(self, events: Seq<ForkEvent>) -> ForkState
        decreases events.len(),
    {
        if events.len() == 0 {
            self
        } else {
            self.next(events[0]).run(events.drop_first())
        }
    }

    /// The states that come after `fork(2)` returned in the child and before
    /// control is handed back.
    pub open spec fn in_child(self) -> bool {
        match self {
            ForkState::AwaitMasterClose => true,
            ForkState::AwaitSession => true,
            ForkState::AwaitTerminal => true,
            ForkState::AwaitDup(_, _) => true,
            _ => false,
        }
    }

    /// The states before `fork(2)` is called.
    pub open spec fn before_fork(self) -> bool {
        match self {
            ForkState::AwaitMaster => true,
            ForkState::AwaitGrant => true,
            ForkState::AwaitUnlock(_) => true,
            ForkState::AwaitName => true,
            ForkState::AwaitSlave(_) => true,
            ForkState::AwaitFork => true,
            _ => false,
        }
    }

    /// The states in which the master half is open and held by this process.
    pub open spec fn holds_master(self) -> bool {
        match self {
            ForkState::AwaitGrant => true,
            ForkState::AwaitUnlock(_) => true,
            ForkState::AwaitName => true,
            ForkState::AwaitSlave(_) => true,
            ForkState::AwaitFork => true,
            ForkState::AwaitMasterClose => true,
            ForkState::AwaitSlaveDrop(_) => true,
            ForkState::Finished(ForkOutcome::Parent(_)) => true,
            _ => false,
        }
    }

    /// The states in which the slave half is open and held by this process.
    pub open spec fn holds_slave(self) -> bool {
        match self {
            ForkState::AwaitFork => true,
            ForkState::AwaitMasterClose => true,
            ForkState::AwaitSession => true,
            ForkState::AwaitTerminal => true,
            ForkState::AwaitDup(_, _) => true,
            ForkState::AwaitSlaveDrop(_) => true,
            ForkState::Finished(ForkOutcome::Child) => true,
            _ => false,
        }
    }

    /// The state a fork starts in.
    pub open spec fn start_state() -> ForkState {
        ForkState::AwaitMaster
    }

    /// The state after `fork(2)` returned in the parent and before control
    /// is handed back.
    pub open spec fn in_parent(self) -> bool {
        self is AwaitSlaveDrop
    }

    /// 0 before the fork, 1 after it on either side, 2 once it has ended.
    pub open spec fn phase(self) -> nat {
        if self.before_fork() {
            0
        } else if self.in_child() || self.in_parent() {
            1
        } else {
            2
        }
    }

    /// The state a fork starts in.
    pub fn start() -> (r: ForkState)
        ensures
            r == ForkState::start_state(),
            r.action() == ForkAction::OpenMaster,
    {
        ForkState::AwaitMaster
    }

    /// The action that a fork asks for in this state.
    pub fn pending(&self) -> (r: ForkAction)
        ensures
            r == self.action(),
    {
        match *self {
            ForkState::AwaitMaster => ForkAction::OpenMaster,
            ForkState::AwaitGrant => ForkAction::Grantpt,
            ForkState::AwaitUnlock(_) => ForkAction::Unlockpt,
            ForkState::AwaitName => ForkAction::Ptsname,
            ForkState::AwaitSlave(n) => ForkAction::OpenSlave(n, OpenMode::ReadWriteNoCtty),
            ForkState::AwaitFork => ForkAction::Fork,
            ForkState::AwaitMasterClose => ForkAction::CloseMaster,
            ForkState::AwaitSession => ForkAction::Setsid,
            ForkState::AwaitTerminal => ForkAction::ClaimTerminal,
            ForkState::AwaitDup(s, _) => ForkAction::Dup2(s),
            ForkState::AwaitSlaveDrop(_) => ForkAction::DropSlave,
            ForkState::Finished(o) => ForkAction::Return(o),
        }
    }

    /// The state after `event`.
    pub fn step(self, event: ForkEvent) -> (r: ForkState)
        ensures
            r == self.next(event),
    {
        match (self, event) {
            (ForkState::AwaitMaster, ForkEvent::MasterOpened(r)) => match r {
                Err(c) => ForkState::Finished(ForkOutcome::Failed(ForkError::BadMaster(c))),
                Ok(_) => ForkState::AwaitGrant,
            },
            (ForkState::AwaitGrant, ForkEvent::Granted(r)) => match r {
                Err(c) => ForkState::AwaitUnlock(Some(c)),
                Ok(_) => ForkState::AwaitUnlock(None),
            },
            (ForkState::AwaitUnlock(g), ForkEvent::Unlocked(r)) => match (g, r) {
                (Some(c), _) => ForkState::Finished(ForkOutcome::Failed(ForkError::BadMaster(c))),
                (None, Err(c)) => ForkState::Finished(ForkOutcome::Failed(ForkError::BadMaster(c))),
                (None, Ok(_)) => ForkState::AwaitName,
            },
            (ForkState::AwaitName, ForkEvent::NameWritten(r, buf)) => match r {
                Err(c) => ForkState::Finished(ForkOutcome::Failed(ForkError::BadMaster(c))),
                Ok(_) => match first_nul(buf) {
                    Some(n) => ForkState::AwaitSlave(n),
                    None => ForkState::Finished(
                        ForkOutcome::Failed(ForkError::BadMaster(MasterError::PtsnameError)),
                    ),
                },
            },
            (ForkState::AwaitSlave(_), ForkEvent::SlaveOpened(r)) => match r {
                Err(c) => ForkState::Finished(ForkOutcome::Failed(ForkError::BadSlave(c))),
                Ok(_) => ForkState::AwaitFork,
            },
            (ForkState::AwaitFork, ForkEvent::Forked(pid)) => if pid == -1 {
                ForkState::Finished(ForkOutcome::Failed(ForkError::Failure))
            } else if pid == 0 {
                ForkState::AwaitMasterClose
            } else {
                ForkState::AwaitSlaveDrop(pid)
            },
            (ForkState::AwaitMasterClose, ForkEvent::MasterClosed) => ForkState::AwaitSession,
            (ForkState::AwaitSlaveDrop(pid), ForkEvent::SlaveDropped) => ForkState::Finished(
                ForkOutcome::Parent(pid),
            ),
            (ForkState::AwaitSession, ForkEvent::SessionCreated(ret)) => if ret == -1 {
                ForkState::Finished(ForkOutcome::Failed(ForkError::SetsidFail))
            } else {
                ForkState::AwaitTerminal
            },
            (ForkState::AwaitTerminal, ForkEvent::TerminalClaimed(ret)) => if ret == -1 {
                ForkState::Finished(ForkOutcome::Failed(ForkError::SetcttyFail))
            } else {
                ForkState::AwaitDup(StdStream::Input, None)
            },
            (ForkState::AwaitDup(s, e), ForkEvent::Duplicated(r)) => {
                let e2 = match (e, r) {
                    (Some(c), _) => Some(c),
                    (None, Err(c)) => Some(c),
                    (None, Ok(_)) => None,
                };
                match s {
                    StdStream::Input => ForkState::AwaitDup(StdStream::Output, e2),
                    StdStream::Output => ForkState::AwaitDup(StdStream::Error, e2),
                    StdStream::Error => match e2 {
                        Some(c) => ForkState::Finished(ForkOutcome::Failed(ForkError::BadSlave(c))),
                        None => ForkState::Finished(ForkOutcome::Child),
                    },
                }
            },
            _ => self,
        }
    }
}

} // verus!
