use shpool_pty::descriptor::{open_mode, open_outcome, DescriptorError};
use shpool_pty::fork::pty::master::{
    first_nul, grantpt_outcome, name_copy_len, ptsname_outcome, read_outcome, unlockpt_outcome,
    write_outcome, MasterError,
};
use shpool_pty::fork::pty::slave::{dup2_outcome, SlaveError};
use shpool_pty::fork::pty::{master, slave};
use shpool_pty::DEFAULT_PTMX;

#[test]
fn open_mode_defaults_to_zero() {
    assert_eq!(open_mode(None), 0);
    assert_eq!(open_mode(Some(0o644)), 0o644);
}

#[test]
fn open_outcome_reads_minus_one_as_failure() {
    assert_eq!(open_outcome(-1), Err(DescriptorError::OpenFail));
    assert_eq!(open_outcome(0), Ok(0));
    assert_eq!(open_outcome(7), Ok(7));
}

#[test]
fn descriptor_error_descriptions() {
    assert_eq!(DescriptorError::OpenFail.description(), "can't open the fd");
    assert_eq!(DescriptorError::CloseFail.description(), "can't close the fd");
}

#[test]
fn master_open_outcome_wraps_descriptor_error() {
    assert_eq!(master::new_outcome(Ok::<i32, DescriptorError>(5)), Ok(5));
    assert_eq!(
        master::new_outcome(Err::<i32, DescriptorError>(DescriptorError::OpenFail)),
        Err(MasterError::BadDescriptor(DescriptorError::OpenFail))
    );
}

#[test]
fn grantpt_and_unlockpt_outcomes() {
    assert_eq!(grantpt_outcome(-1), Err(MasterError::GrantptError));
    assert_eq!(grantpt_outcome(0), Ok(0));
    assert_eq!(unlockpt_outcome(-1), Err(MasterError::UnlockptError));
    assert_eq!(unlockpt_outcome(0), Ok(0));
}

#[test]
fn ptsname_outcome_zero_is_success() {
    assert_eq!(ptsname_outcome(0), Ok(()));
    assert_eq!(ptsname_outcome(34), Err(MasterError::PtsnameError));
    assert_eq!(ptsname_outcome(-1), Err(MasterError::PtsnameError));
}

#[test]
fn read_outcome_swallows_failure() {
    assert_eq!(read_outcome(-1), 0);
    assert_eq!(read_outcome(0), 0);
    assert_eq!(read_outcome(12), 12);
}

#[test]
fn write_outcome_reports_failure() {
    assert_eq!(write_outcome(-1), None);
    assert_eq!(write_outcome(0), Some(0));
    assert_eq!(write_outcome(13), Some(13));
}

#[test]
fn master_error_descriptions_and_causes() {
    assert_eq!(
        MasterError::BadDescriptor(DescriptorError::OpenFail).description(),
        "the descriptor as occured an error"
    );
    assert_eq!(
        MasterError::GrantptError.description(),
        "the `grantpt` has a error, errnois set appropriately."
    );
    assert_eq!(
        MasterError::UnlockptError.description(),
        "the `unlockpt` has a error, errnois set appropriately."
    );
    assert_eq!(MasterError::PtsnameError.description(), "the `ptsname` has a error");
    assert_eq!(
        MasterError::BadDescriptor(DescriptorError::CloseFail).cause(),
        Some(DescriptorError::CloseFail)
    );
    assert_eq!(MasterError::GrantptError.cause(), None);
}

#[test]
fn first_nul_finds_the_first_zero_byte() {
    assert_eq!(first_nul(b"/dev/pts/3\0\0x"), Some(10));
    assert_eq!(first_nul(b"\0abc"), Some(0));
    assert_eq!(first_nul(b"abc"), None);
    assert_eq!(first_nul(b""), None);
}

#[test]
fn name_copy_len_includes_the_terminator() {
    let mut name = [0u8; 128];
    name[..12].copy_from_slice(b"/dev/ttys003");
    assert_eq!(name_copy_len(&name, 1024), Some(13));
    assert_eq!(name_copy_len(&name, 13), Some(13));
    assert_eq!(name_copy_len(&name, 12), None);
    assert_eq!(name_copy_len(&name, 2), None);
}

#[test]
fn name_copy_len_without_terminator_copies_everything() {
    let name = [b'a'; 128];
    assert_eq!(name_copy_len(&name, 1024), Some(128));
    assert_eq!(name_copy_len(&name, 127), None);
}

#[test]
fn slave_outcomes() {
    assert_eq!(dup2_outcome(-1), Err(SlaveError::Dup2Error));
    assert_eq!(dup2_outcome(1), Ok(1));
    assert_eq!(slave::new_outcome(Ok::<u8, DescriptorError>(3)), Ok(3));
    assert_eq!(
        slave::new_outcome(Err::<u8, DescriptorError>(DescriptorError::OpenFail)),
        Err(SlaveError::BadDescriptor(DescriptorError::OpenFail))
    );
    assert_eq!(
        SlaveError::Dup2Error.description(),
        "the `dup2` has a error, errno isset appropriately."
    );
    assert_eq!(
        SlaveError::BadDescriptor(DescriptorError::OpenFail).description(),
        "the descriptor as occured an error"
    );
    assert_eq!(SlaveError::Dup2Error.cause(), None);
    assert_eq!(
        SlaveError::BadDescriptor(DescriptorError::OpenFail).cause(),
        Some(DescriptorError::OpenFail)
    );
}

#[test]
fn default_ptmx_path() {
    assert_eq!(DEFAULT_PTMX, "/dev/ptmx");
}

/// A slave name of 13 bytes with its terminator does not fit in 2 bytes.
#[test]
fn test_ptsname_r_buffer_too_small() {
    let mut name = [0u8; 128];
    name[..12].copy_from_slice(b"/dev/ttys003");
    assert_eq!(name_copy_len(&name, 2), None);
}

/// A slave name read by the ioctl is copied whole, with its terminator.
#[test]
fn test_ptsname_r_retrieves_valid_name() {
    let mut name = [0u8; 128];
    name[..12].copy_from_slice(b"/dev/ttys003");
    let len = name_copy_len(&name, 1024).expect("the name fits");
    assert_eq!(&name[..len], b"/dev/ttys003\0");
    assert!(name[..len - 1].starts_with(b"/dev/ttys") || name[..len - 1].starts_with(b"/dev/pty"));
}
