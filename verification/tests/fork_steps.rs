use shpool_pty::descriptor::DescriptorError;
use shpool_pty::fork::pty::master::MasterError;
use shpool_pty::fork::pty::slave::{OpenMode, SlaveError};
use shpool_pty::fork::{
    master_path, wait_outcome, Fork, ForkAction, ForkError, ForkErrorCause, ForkEvent, ForkOutcome, ForkState,
    StdStream, MAX_PTS_NAME,
};

fn name_buffer() -> [u8; MAX_PTS_NAME] {
    let mut buf = [0u8; MAX_PTS_NAME];
    buf[..10].copy_from_slice(b"/dev/pts/7");
    buf
}

/// Runs the fork up to the point where `fork(2)` is called, with every
/// earlier call succeeding.
fn up_to_fork(buf: &[u8]) -> ForkState {
    let mut s = ForkState::start();
    assert_eq!(s.pending(), ForkAction::OpenMaster);
    s = s.step(ForkEvent::MasterOpened(Ok(())));
    assert_eq!(s.pending(), ForkAction::Grantpt);
    s = s.step(ForkEvent::Granted(Ok(0)));
    assert_eq!(s.pending(), ForkAction::Unlockpt);
    s = s.step(ForkEvent::Unlocked(Ok(0)));
    assert_eq!(s.pending(), ForkAction::Ptsname);
    s = s.step(ForkEvent::NameWritten(Ok(()), buf));
    assert_eq!(s.pending(), ForkAction::OpenSlave(10, OpenMode::ReadWriteNoCtty));
    s = s.step(ForkEvent::SlaveOpened(Ok(())));
    assert_eq!(s.pending(), ForkAction::Fork);
    s
}

#[test]
fn parent_ends_with_the_child_pid() {
    let buf = name_buffer();
    let s = up_to_fork(&buf).step(ForkEvent::Forked(4242));
    assert_eq!(s.pending(), ForkAction::DropSlave);
    let s = s.step(ForkEvent::SlaveDropped);
    assert_eq!(s, ForkState::Finished(ForkOutcome::Parent(4242)));
    assert_eq!(s.pending(), ForkAction::Return(ForkOutcome::Parent(4242)));
}

#[test]
fn failed_fork_call_fails_with_failure() {
    let buf = name_buffer();
    let s = up_to_fork(&buf).step(ForkEvent::Forked(-1));
    assert_eq!(s.pending(), ForkAction::Return(ForkOutcome::Failed(ForkError::Failure)));
}

#[test]
fn child_sets_up_the_terminal_in_order() {
    let buf = name_buffer();
    let mut s = up_to_fork(&buf).step(ForkEvent::Forked(0));
    assert_eq!(s.pending(), ForkAction::CloseMaster);
    s = s.step(ForkEvent::MasterClosed);
    assert_eq!(s.pending(), ForkAction::Setsid);
    s = s.step(ForkEvent::SessionCreated(123));
    assert_eq!(s.pending(), ForkAction::ClaimTerminal);
    s = s.step(ForkEvent::TerminalClaimed(0));
    assert_eq!(s.pending(), ForkAction::Dup2(StdStream::Input));
    s = s.step(ForkEvent::Duplicated(Ok(0)));
    assert_eq!(s.pending(), ForkAction::Dup2(StdStream::Output));
    s = s.step(ForkEvent::Duplicated(Ok(1)));
    assert_eq!(s.pending(), ForkAction::Dup2(StdStream::Error));
    s = s.step(ForkEvent::Duplicated(Ok(2)));
    assert_eq!(s.pending(), ForkAction::Return(ForkOutcome::Child));
}

#[test]
fn child_setsid_and_ioctl_failures() {
    let buf = name_buffer();
    let s = up_to_fork(&buf).step(ForkEvent::Forked(0)).step(ForkEvent::MasterClosed);
    assert_eq!(
        s.step(ForkEvent::SessionCreated(-1)),
        ForkState::Finished(ForkOutcome::Failed(ForkError::SetsidFail))
    );
    let t = s.step(ForkEvent::SessionCreated(1));
    assert_eq!(
        t.step(ForkEvent::TerminalClaimed(-1)),
        ForkState::Finished(ForkOutcome::Failed(ForkError::SetcttyFail))
    );
}

#[test]
fn every_stream_is_duplicated_and_the_first_error_wins() {
    let mut s = ForkState::AwaitDup(StdStream::Input, None);
    s = s.step(ForkEvent::Duplicated(Ok(0)));
    s = s.step(ForkEvent::Duplicated(Err(SlaveError::Dup2Error)));
    assert_eq!(s.pending(), ForkAction::Dup2(StdStream::Error));
    s = s.step(ForkEvent::Duplicated(Err(SlaveError::BadDescriptor(DescriptorError::OpenFail))));
    assert_eq!(
        s,
        ForkState::Finished(ForkOutcome::Failed(ForkError::BadSlave(SlaveError::Dup2Error)))
    );
}

#[test]
fn unlockpt_is_asked_for_even_when_grantpt_fails() {
    let s = ForkState::AwaitGrant.step(ForkEvent::Granted(Err(MasterError::GrantptError)));
    assert_eq!(s.pending(), ForkAction::Unlockpt);
    assert_eq!(
        s.step(ForkEvent::Unlocked(Err(MasterError::UnlockptError))),
        ForkState::Finished(ForkOutcome::Failed(ForkError::BadMaster(MasterError::GrantptError)))
    );
    let t = ForkState::AwaitGrant.step(ForkEvent::Granted(Ok(0)));
    assert_eq!(
        t.step(ForkEvent::Unlocked(Err(MasterError::UnlockptError))),
        ForkState::Finished(ForkOutcome::Failed(ForkError::BadMaster(MasterError::UnlockptError)))
    );
}

#[test]
fn master_and_slave_open_failures() {
    let e = MasterError::BadDescriptor(DescriptorError::OpenFail);
    assert_eq!(
        ForkState::start().step(ForkEvent::MasterOpened(Err(e))),
        ForkState::Finished(ForkOutcome::Failed(ForkError::BadMaster(e)))
    );
    let se = SlaveError::BadDescriptor(DescriptorError::OpenFail);
    assert_eq!(
        ForkState::AwaitSlave(10).step(ForkEvent::SlaveOpened(Err(se))),
        ForkState::Finished(ForkOutcome::Failed(ForkError::BadSlave(se)))
    );
}

#[test]
fn name_without_terminator_fails_with_ptsname_error() {
    let buf = [b'x'; 16];
    assert_eq!(
        ForkState::AwaitName.step(ForkEvent::NameWritten(Ok(()), &buf)),
        ForkState::Finished(ForkOutcome::Failed(ForkError::BadMaster(MasterError::PtsnameError)))
    );
    let named = name_buffer();
    assert_eq!(
        ForkState::AwaitName.step(ForkEvent::NameWritten(Err(MasterError::PtsnameError), &named)),
        ForkState::Finished(ForkOutcome::Failed(ForkError::BadMaster(MasterError::PtsnameError)))
    );
}

#[test]
fn unanswered_events_change_nothing() {
    assert_eq!(ForkState::AwaitMaster.step(ForkEvent::Forked(3)), ForkState::AwaitMaster);
    assert_eq!(ForkState::AwaitFork.step(ForkEvent::MasterClosed), ForkState::AwaitFork);
    let done = ForkState::Finished(ForkOutcome::Child);
    assert_eq!(done.step(ForkEvent::Duplicated(Ok(0))), done);
    assert_eq!(done.step(ForkEvent::Forked(0)), done);
}

#[test]
fn wait_outcome_decodes_the_status() {
    assert_eq!(wait_outcome(10, 0, 0), None);
    assert_eq!(wait_outcome(10, -1, 0), Some(Err(ForkError::WaitpidFail)));
    assert_eq!(wait_outcome(10, 10, 0x0300), Some(Ok((10, Some(3)))));
    assert_eq!(wait_outcome(10, 10, 0), Some(Ok((10, Some(0)))));
    assert_eq!(wait_outcome(10, 10, 0x0009), Some(Ok((10, None))));
    assert_eq!(wait_outcome(10, 10, 0x2a00), Some(Ok((10, Some(42)))));
}

#[test]
fn fork_sides() {
    let parent: Fork<String, u8> = Fork::Parent(77, "master".to_string());
    let child: Fork<String, u8> = Fork::Child(5);
    assert_eq!(parent.child_pid(), Some(77));
    assert_eq!(child.child_pid(), None);
    assert_eq!(parent.is_parent(), Ok("master".to_string()));
    assert_eq!(child.is_parent(), Err(ForkError::IsChild));
    assert_eq!(parent.is_child(), Err(ForkError::IsParent));
    assert_eq!(child.is_child(), Ok(&5));
    assert_eq!(parent.waited_pid(), Ok(77));
    assert_eq!(child.waited_pid(), Err(ForkError::IsChild));
}

#[test]
fn fork_error_descriptions_and_causes() {
    assert_eq!(ForkError::IsChild.description(), "is child and not parent");
    assert_eq!(ForkError::IsParent.description(), "is parent and not child");
    assert_eq!(
        ForkError::SetcttyFail.description(),
        "the `TIOCSCTTY` ioctl failed, so the child has no controlling terminal."
    );
    assert_eq!(
        ForkError::BadMaster(MasterError::GrantptError).cause(),
        Some(ForkErrorCause::Master(MasterError::GrantptError))
    );
    assert_eq!(
        ForkError::BadDescriptorSlave(DescriptorError::CloseFail).cause(),
        Some(ForkErrorCause::Descriptor(DescriptorError::CloseFail))
    );
    assert_eq!(ForkError::Failure.cause(), None);
}

#[test]
fn master_path_drops_paths_with_nul() {
    assert_eq!(master_path("/dev/ptmx"), "/dev/ptmx");
    assert_eq!(master_path("/dev/\0ptmx"), "");
    assert_eq!(master_path(""), "");
}

/// The child of a fork becomes a session leader and then claims the slave
/// as its controlling terminal, before the slave becomes its standard
/// streams.
#[test]
fn it_sets_the_controlling_terminal() {
    let buf = name_buffer();
    let s = up_to_fork(&buf);
    let mut actions = Vec::new();
    let mut s = s.step(ForkEvent::Forked(0));
    let events = [
        ForkEvent::MasterClosed,
        ForkEvent::SessionCreated(99),
        ForkEvent::TerminalClaimed(0),
        ForkEvent::Duplicated(Ok(0)),
        ForkEvent::Duplicated(Ok(1)),
        ForkEvent::Duplicated(Ok(2)),
    ];
    for e in events {
        actions.push(s.pending());
        s = s.step(e);
    }
    actions.push(s.pending());
    assert_eq!(
        actions,
        vec![
            ForkAction::CloseMaster,
            ForkAction::Setsid,
            ForkAction::ClaimTerminal,
            ForkAction::Dup2(StdStream::Input),
            ForkAction::Dup2(StdStream::Output),
            ForkAction::Dup2(StdStream::Error),
            ForkAction::Return(ForkOutcome::Child),
        ]
    );
}

/// Everything that may allocate is asked for before the fork; after it, the
/// child is only asked for close, setsid, ioctl and dup2 calls.
#[test]
fn it_does_not_allocate_in_the_child() {
    let buf = name_buffer();
    let mut s = ForkState::start();
    let before = [
        ForkEvent::MasterOpened(Ok(())),
        ForkEvent::Granted(Ok(0)),
        ForkEvent::Unlocked(Ok(0)),
        ForkEvent::NameWritten(Ok(()), &buf),
        ForkEvent::SlaveOpened(Ok(())),
    ];
    for e in before {
        assert!(matches!(
            s.pending(),
            ForkAction::OpenMaster
                | ForkAction::Grantpt
                | ForkAction::Unlockpt
                | ForkAction::Ptsname
                | ForkAction::OpenSlave(_, _)
        ));
        s = s.step(e);
    }
    assert_eq!(s.pending(), ForkAction::Fork);
    s = s.step(ForkEvent::Forked(0));
    let after = [
        ForkEvent::MasterClosed,
        ForkEvent::SessionCreated(1),
        ForkEvent::TerminalClaimed(0),
        ForkEvent::Duplicated(Ok(0)),
        ForkEvent::Duplicated(Err(SlaveError::Dup2Error)),
        ForkEvent::Duplicated(Ok(2)),
    ];
    for e in after {
        assert!(matches!(
            s.pending(),
            ForkAction::CloseMaster
                | ForkAction::Setsid
                | ForkAction::ClaimTerminal
                | ForkAction::Dup2(_)
        ));
        s = s.step(e);
    }
    assert_eq!(
        s.pending(),
        ForkAction::Return(ForkOutcome::Failed(ForkError::BadSlave(SlaveError::Dup2Error)))
    );
}
