//! What holds of every run of a fork.

use crate::fork::pty::master::{
    has_no_nul, is_first_nul, lemma_first_nul_exists, lemma_first_nul_unique, nul_position,
    MasterError,
};
use crate::fork::pty::slave::{OpenMode, SlaveError};
use crate::fork::{
    exit_code, exited_normally, ForkAction, ForkError, ForkEvent, ForkOutcome, ForkState,
    StdStream,
};
use vstd::prelude::*;

verus! {

/// A fork never goes back: from before the fork it goes on to the child or
/// ends, and from the child it only ends.
pub proof fn lemma_phase_never_decreases(s: ForkState, e: ForkEvent)
    ensures
        s.next(e).phase() >= s.phase(),
{
}

/// The same over any sequence of events.
pub proof fn lemma_phase_never_decreases_in_runs(s: ForkState, events: Seq<ForkEvent>)
    ensures
        s.run(events).phase() >= s.phase(),
    decreases events.len(),
{
    if events.len() > 0 {
        lemma_phase_never_decreases(s, events[0]);
        lemma_phase_never_decreases_in_runs(s.next(events[0]), events.drop_first());
    }
}

/// The work that may touch the allocator (opening the two halves, granting,
/// unlocking, resolving the slave's name) is only asked for before the fork.
pub proof fn lemma_preparation_before_fork(s: ForkState)
    ensures
        s.action().prepares() ==> s.before_fork(),
{
}

/// When `fork(2)` returns -1 the fork fails with `Failure`; when it returns
/// 0 the child first closes the master half; any other value is the
/// child's pid: the parent drops the slave half and then ends with that pid.
pub proof fn lemma_fork_returns(pid: i32)
    ensures
        pid == -1 ==> ForkState::AwaitFork.next(ForkEvent::Forked(pid)) == ForkState::Finished(
            ForkOutcome::Failed(ForkError::Failure),
        ),
        pid == 0 ==> ForkState::AwaitFork.next(ForkEvent::Forked(pid)).in_child(),
        pid == 0 ==> ForkState::AwaitFork.next(ForkEvent::Forked(pid)).action()
            == ForkAction::CloseMaster,
        pid != -1 && pid != 0 ==> ForkState::AwaitFork.next(ForkEvent::Forked(pid)).action()
            == ForkAction::DropSlave,
        pid != -1 && pid != 0 ==> ForkState::AwaitFork.next(ForkEvent::Forked(pid)).next(
            ForkEvent::SlaveDropped,
        ) == ForkState::Finished(ForkOutcome::Parent(pid)),
{
}

/// In the child, every action asked for is async-signal-safe, and the child
/// stays in the child until it ends, as the child or with an error, never
/// as the parent.
pub proof fn lemma_child_step(s: ForkState, e: ForkEvent)
    requires
        s.in_child(),
    ensures
        s.action().async_signal_safe(),
        s.next(e).in_child() || (s.next(e) matches ForkState::Finished(o) && !(o is Parent)),
{
}

/// The same over any sequence of events: whatever the calls in the child
/// return, the child asks only for async-signal-safe calls until it hands
/// control back, and it never ends as the parent.
pub proof fn lemma_child_runs_signal_safe(s: ForkState, events: Seq<ForkEvent>)
    requires
        s.in_child(),
    ensures
        ({
            let t = s.run(events);
            (t.in_child() && t.action().async_signal_safe()) || (t matches ForkState::Finished(o)
                && !(o is Parent))
        }),
    decreases events.len(),
{
    if events.len() > 0 {
        let t = s.next(events[0]);
        lemma_child_step(s, events[0]);
        if t.in_child() {
            lemma_child_runs_signal_safe(t, events.drop_first());
        } else {
            lemma_finished_is_final(t, events.drop_first());
        }
    } else {
        lemma_child_step(s, ForkEvent::MasterClosed);
    }
}

/// In the child, the master half is closed first; the child then becomes a
/// session leader, and only once that succeeded claims the slave as its
/// controlling terminal, and only once that succeeded duplicates it onto
/// its standard streams.
pub proof fn lemma_child_order(setsid_ret: i32, ioctl_ret: i32)
    ensures
        ForkState::AwaitMasterClose.action() == ForkAction::CloseMaster,
        ForkState::AwaitMasterClose.next(ForkEvent::MasterClosed).action() == ForkAction::Setsid,
        setsid_ret != -1 ==> ForkState::AwaitSession.next(ForkEvent::SessionCreated(setsid_ret)).action()
            == ForkAction::ClaimTerminal,
        setsid_ret == -1 ==> ForkState::AwaitSession.next(ForkEvent::SessionCreated(setsid_ret))
            == ForkState::Finished(ForkOutcome::Failed(ForkError::SetsidFail)),
        ioctl_ret != -1 ==> ForkState::AwaitTerminal.next(ForkEvent::TerminalClaimed(ioctl_ret)).action()
            == ForkAction::Dup2(StdStream::Input),
        ioctl_ret == -1 ==> ForkState::AwaitTerminal.next(ForkEvent::TerminalClaimed(ioctl_ret))
            == ForkState::Finished(ForkOutcome::Failed(ForkError::SetcttyFail)),
{
}

/// Once a fork has ended, it stays as it ended.
pub proof fn lemma_finished_is_final(s: ForkState, events: Seq<ForkEvent>)
    requires
        s is Finished,
    ensures
        s.run(events) == s,
    decreases events.len(),
{
    if events.len() > 0 {
        lemma_finished_is_final(s.next(events[0]), events.drop_first());
    }
}

/// An event that does not answer the action asked for changes nothing.
pub proof fn lemma_unanswered_event_changes_nothing(s: ForkState, e: ForkEvent)
    requires
        !(s is AwaitMaster && e is MasterOpened),
        !(s is AwaitGrant && e is Granted),
        !(s is AwaitUnlock && e is Unlocked),
        !(s is AwaitName && e is NameWritten),
        !(s is AwaitSlave && e is SlaveOpened),
        !(s is AwaitFork && e is Forked),
        !(s is AwaitMasterClose && e is MasterClosed),
        !(s is AwaitSession && e is SessionCreated),
        !(s is AwaitTerminal && e is TerminalClaimed),
        !(s is AwaitDup && e is Duplicated),
        !(s is AwaitSlaveDrop && e is SlaveDropped),
    ensures
        s.next(e) == s,
{
}

/// `unlockpt` is called whether `grantpt` failed or not; the fork then
/// fails with the error of `grantpt` if it failed, else with that of
/// `unlockpt` if it failed, and goes on to the slave's name otherwise.
pub proof fn lemma_grant_and_unlock(g: Result<i32, MasterError>, u: Result<i32, MasterError>)
    ensures
        ForkState::AwaitGrant.next(ForkEvent::Granted(g)).action() == ForkAction::Unlockpt,
        ({
            let t = ForkState::AwaitGrant.next(ForkEvent::Granted(g)).next(ForkEvent::Unlocked(u));
            &&& g matches Err(c) ==> t == ForkState::Finished(
                ForkOutcome::Failed(ForkError::BadMaster(c)),
            )
            &&& g is Ok ==> (u matches Err(c) ==> t == ForkState::Finished(
                ForkOutcome::Failed(ForkError::BadMaster(c)),
            ))
            &&& (g is Ok && u is Ok) ==> t == ForkState::AwaitName
        }),
{
}

/// The slave that is opened is the one named by the buffer up to its first
/// NUL byte; a buffer without one fails the fork with `PtsnameError`, and a
/// failed `ptsname_r` with its own error.
pub proof fn lemma_slave_name(r: Result<(), MasterError>, buf: &[u8])
    ensures
        ({
            let t = ForkState::AwaitName.next(ForkEvent::NameWritten(r, buf));
            &&& r matches Err(c) ==> t == ForkState::Finished(
                ForkOutcome::Failed(ForkError::BadMaster(c)),
            )
            &&& r is Ok ==> forall|n: usize|
                t == ForkState::AwaitSlave(n) <==> is_first_nul(buf@, n as int)
            &&& (r is Ok && (forall|j: int| 0 <= j < buf@.len() ==> buf@[j] != 0)) ==> t
                == ForkState::Finished(
                ForkOutcome::Failed(ForkError::BadMaster(MasterError::PtsnameError)),
            )
        }),
{
    let t = ForkState::AwaitName.next(ForkEvent::NameWritten(r, buf));
    if r is Ok {
        if !has_no_nul(buf@) {
            lemma_first_nul_exists(buf@);
            let k = nul_position(buf@)->Some_0;
            assert(buf@.len() == buf.len());
            assert forall|n: usize| is_first_nul(buf@, n as int) implies t == ForkState::AwaitSlave(n) by {
                lemma_first_nul_unique(buf@, k, n as int);
            }
        }
    }
}

/// The slave is duplicated onto standard input, output and error in this
/// order, each whether or not the ones before failed; the child then ends
/// with the first of their errors, or as the child when none failed.
pub proof fn lemma_all_streams_duplicated(
    a: Result<i32, SlaveError>,
    b: Result<i32, SlaveError>,
    c: Result<i32, SlaveError>,
)
    ensures
        ({
            let s0 = ForkState::AwaitDup(StdStream::Input, None);
            let s1 = s0.next(ForkEvent::Duplicated(a));
            let s2 = s1.next(ForkEvent::Duplicated(b));
            let s3 = s2.next(ForkEvent::Duplicated(c));
            &&& s0.action() == ForkAction::Dup2(StdStream::Input)
            &&& s1.action() == ForkAction::Dup2(StdStream::Output)
            &&& s2.action() == ForkAction::Dup2(StdStream::Error)
            &&& a matches Err(e) ==> s3 == ForkState::Finished(
                ForkOutcome::Failed(ForkError::BadSlave(e)),
            )
            &&& a is Ok ==> (b matches Err(e) ==> s3 == ForkState::Finished(
                ForkOutcome::Failed(ForkError::BadSlave(e)),
            ))
            &&& (a is Ok && b is Ok) ==> (c matches Err(e) ==> s3 == ForkState::Finished(
                ForkOutcome::Failed(ForkError::BadSlave(e)),
            ))
            &&& (a is Ok && b is Ok && c is Ok) ==> s3 == ForkState::Finished(ForkOutcome::Child)
        }),
{
}

/// The slave half is only ever opened without making it the controlling
/// terminal of the process that opens it: the parent's controlling terminal
/// is left alone, and the child claims the terminal itself.
pub proof fn lemma_slave_opened_without_ctty(s: ForkState)
    ensures
        s.action() matches ForkAction::OpenSlave(_, mode) ==> mode == OpenMode::ReadWriteNoCtty,
{
}

/// The parent only ends once the slave half has been dropped.
pub proof fn lemma_parent_drops_slave(s: ForkState, e: ForkEvent)
    ensures
        !(s is Finished) ==> (s.next(e) matches ForkState::Finished(ForkOutcome::Parent(pid))
            ==> s == ForkState::AwaitSlaveDrop(pid) && s.action() == ForkAction::DropSlave),
{
}

/// An action that uses the master half is only asked for in a state that
/// holds it, and only the successful opening of the master half leads into
/// such a state.
pub proof fn lemma_master_held(s: ForkState, e: ForkEvent)
    ensures
        s.action().uses_master() ==> s.holds_master(),
        (!s.holds_master() && s.next(e).holds_master()) ==> s == ForkState::AwaitMaster && e
            == ForkEvent::MasterOpened(Ok(())),
{
    if let ForkEvent::MasterOpened(Ok(u)) = e {
        assert(u == ());
    }
}

/// An action that uses the slave half is only asked for in a state that
/// holds it, and only the successful opening of the slave half leads into
/// such a state.
pub proof fn lemma_slave_held(s: ForkState, e: ForkEvent)
    ensures
        s.action().uses_slave() ==> s.holds_slave(),
        (!s.holds_slave() && s.next(e).holds_slave()) ==> (s is AwaitSlave && e
            == ForkEvent::SlaveOpened(Ok(()))),
{
    if let ForkEvent::SlaveOpened(Ok(u)) = e {
        assert(u == ());
    }
}

/// A run from the start that comes to an action using the master half (or
/// to ending as the parent, which hands the master back) went through the
/// successful opening of the master half.
pub proof fn lemma_master_opened_before_use(events: Seq<ForkEvent>)
    ensures
        ForkState::start_state().run(events).action().uses_master() ==> exists|i: int|
            0 <= i < events.len() && events[i] == ForkEvent::MasterOpened(Ok(())),
{
    let t = ForkState::start_state().run(events);
    if t.action().uses_master() {
        lemma_master_held(t, ForkEvent::MasterClosed);
        lemma_run_takes_master(ForkState::start_state(), events);
    }
}

/// A run from the start that comes to an action using the slave half (or
/// to ending as the child, which hands the slave back) went through the
/// successful opening of the slave half.
pub proof fn lemma_slave_opened_before_use(events: Seq<ForkEvent>)
    ensures
        ForkState::start_state().run(events).action().uses_slave() ==> exists|i: int|
            0 <= i < events.len() && events[i] == ForkEvent::SlaveOpened(Ok(())),
{
    let t = ForkState::start_state().run(events);
    if t.action().uses_slave() {
        lemma_slave_held(t, ForkEvent::MasterClosed);
        lemma_run_takes_slave(ForkState::start_state(), events);
    }
}

proof fn lemma_run_takes_master(s: ForkState, events: Seq<ForkEvent>)
    requires
        !s.holds_master(),
        s.run(events).holds_master(),
    ensures
        exists|i: int| 0 <= i < events.len() && events[i] == ForkEvent::MasterOpened(Ok(())),
    decreases events.len(),
{
    if events.len() == 0 {
    } else {
        let t = s.next(events[0]);
        lemma_master_held(s, events[0]);
        if t.holds_master() {
            assert(events[0] == ForkEvent::MasterOpened(Ok(())));
        } else {
            let rest = events.drop_first();
            lemma_run_takes_master(t, rest);
            let i = choose|i: int| 0 <= i < rest.len() && rest[i] == ForkEvent::MasterOpened(Ok(()));
            assert(events[i + 1] == rest[i]);
        }
    }
}

proof fn lemma_run_takes_slave(s: ForkState, events: Seq<ForkEvent>)
    requires
        !s.holds_slave(),
        s.run(events).holds_slave(),
    ensures
        exists|i: int| 0 <= i < events.len() && events[i] == ForkEvent::SlaveOpened(Ok(())),
    decreases events.len(),
{
    if events.len() == 0 {
    } else {
        let t = s.next(events[0]);
        lemma_slave_held(s, events[0]);
        if t.holds_slave() {
            assert(events[0] == ForkEvent::SlaveOpened(Ok(())));
        } else {
            let rest = events.drop_first();
            lemma_run_takes_slave(t, rest);
            let i = choose|i: int| 0 <= i < rest.len() && rest[i] == ForkEvent::SlaveOpened(Ok(()));
            assert(events[i + 1] == rest[i]);
        }
    }
}

/// A fork that has ended asks to hand back exactly how it ended: the parent
/// its child's pid, the child itself, a failure its error.
pub proof fn lemma_finished_hands_back(o: ForkOutcome)
    ensures
        ForkState::Finished(o).action() == ForkAction::Return(o),
{
}

/// Once a step fails, the fork asks for nothing but to hand back that
/// error, whatever events come after: no further call, `fork(2)` least of
/// all, is asked for.
pub proof fn lemma_failure_hands_back_error(
    s: ForkState,
    e: ForkEvent,
    err: ForkError,
    rest: Seq<ForkEvent>,
)
    requires
        s.next(e) == ForkState::Finished(ForkOutcome::Failed(err)),
    ensures
        s.next(e).run(rest).action() == ForkAction::Return(ForkOutcome::Failed(err)),
        s.next(e).run(rest).action() != ForkAction::Fork,
{
    lemma_finished_is_final(s.next(e), rest);
}

/// A fork whose master half cannot be opened hands back that error as
/// `BadMaster`, whatever events come after.
pub proof fn lemma_failed_master_open(c: MasterError, rest: Seq<ForkEvent>)
    ensures
        ForkState::start_state().run(seq![ForkEvent::MasterOpened(Err(c))] + rest).action()
            == ForkAction::Return(ForkOutcome::Failed(ForkError::BadMaster(c))),
{
    let events = seq![ForkEvent::MasterOpened(Err(c))] + rest;
    assert(events[0] == ForkEvent::MasterOpened(Err::<(), MasterError>(c)));
    assert(events.drop_first() =~= rest);
    lemma_finished_is_final(
        ForkState::Finished(ForkOutcome::Failed(ForkError::BadMaster(c))),
        rest,
    );
}

/// In the parent, the fork hands back the pid that `fork(2)` returned,
/// unchanged, once the slave half is dropped.
pub proof fn lemma_parent_hands_back_pid(pid: i32)
    requires
        pid != -1,
        pid != 0,
    ensures
        ForkState::AwaitFork.next(ForkEvent::Forked(pid)).next(ForkEvent::SlaveDropped).action()
            == ForkAction::Return(ForkOutcome::Parent(pid)),
{
}

/// After a successful `ptsname_r`, the slave asked to be opened is named by
/// exactly the bytes of the buffer before its first NUL byte, and it is
/// opened without becoming the controlling terminal.
pub proof fn lemma_slave_named_by_buffer(buf: &[u8], n: usize)
    ensures
        ForkState::AwaitName.next(ForkEvent::NameWritten(Ok(()), buf)).action()
            == ForkAction::OpenSlave(n, OpenMode::ReadWriteNoCtty) <==> is_first_nul(buf@, n as int),
{
    lemma_slave_name(Ok(()), buf);
}

/// While every call succeeds, the fork asks in turn to open the master half,
/// grant and unlock it, resolve the slave's name, open the slave named by
/// the buffer up to its first NUL byte, and fork.
pub proof fn lemma_preparation_order(g: i32, u: i32, buf: &[u8], n: usize)
    requires
        is_first_nul(buf@, n as int),
    ensures
        ({
            let s0 = ForkState::start_state();
            let s1 = s0.next(ForkEvent::MasterOpened(Ok(())));
            let s2 = s1.next(ForkEvent::Granted(Ok(g)));
            let s3 = s2.next(ForkEvent::Unlocked(Ok(u)));
            let s4 = s3.next(ForkEvent::NameWritten(Ok(()), buf));
            let s5 = s4.next(ForkEvent::SlaveOpened(Ok(())));
            &&& s0.action() == ForkAction::OpenMaster
            &&& s1.action() == ForkAction::Grantpt
            &&& s2.action() == ForkAction::Unlockpt
            &&& s3.action() == ForkAction::Ptsname
            &&& s4.action() == ForkAction::OpenSlave(n, OpenMode::ReadWriteNoCtty)
            &&& s5.action() == ForkAction::Fork
        }),
{
    lemma_slave_name(Ok(()), buf);
}

/// A child that exited with code `code` (0 to 255) leaves the wait status
/// `code << 8`, which reads as a normal exit with exactly that code.
pub proof fn lemma_normal_exit_code(code: i32)
    requires
        0 <= code <= 255,
    ensures
        exited_normally(code << 8),
        exit_code(code << 8) == code,
{
    assert(((code << 8) & 0x7f) == 0 && (((code << 8) >> 8) & 0xff) == code) by (bit_vector)
        requires
            0 <= code <= 255,
    ;
}

/// A child killed by signal `sig` (1 to 127) leaves a wait status whose low
/// seven bits are `sig`, with or without the core-dump bit: that never
/// reads as a normal exit, so no exit code is reported.
pub proof fn lemma_signal_is_no_normal_exit(sig: i32)
    requires
        1 <= sig <= 0x7f,
    ensures
        !exited_normally(sig),
        !exited_normally(sig | 0x80),
{
    assert((sig & 0x7f) != 0 && ((sig | 0x80) & 0x7f) != 0) by (bit_vector)
        requires
            1 <= sig <= 0x7f,
    ;
}

/// Whatever the wait status, the exit code read from it is a byte.
pub proof fn lemma_exit_code_is_a_byte(status: i32)
    ensures
        0 <= exit_code(status) <= 255,
{
    assert(0 <= ((status >> 8) & 0xff) <= 255) by (bit_vector);
}

} // verus!
