use dos_std::dos::Error;
use dos_std::dos::FarPtr;
use dos_std::dos::File;
use dos_std::dos::Flags;
use dos_std::dos::Psp;
use dos_std::fs::File as StdFile;
use dos_std::fs::OpenOptions;

#[test]
fn error_codes_round_trip() {
    let all = [
        Error::InvalidFunction,
        Error::FileNotFound,
        Error::PathNotFound,
        Error::TooManyOpenFiles,
        Error::AccessDenied,
        Error::InvalidHandle,
        Error::InsufficientMemory,
        Error::InvalidFormat,
        Error::InvalidAccessCode,
        Error::InvalidDrive,
        Error::PrinterOutOfPaper,
        Error::WriteFault,
        Error::ReadFault,
        Error::GeneralFailure,
        Error::SharingViolation,
        Error::LockViolation,
        Error::DiskChangeInvalid,
        Error::InvalidSharingBuffer,
        Error::CodePageMismatch,
        Error::FileExists,
        Error::InvalidPassword,
        Error::InvalidParameter,
    ];
    for e in all {
        assert_eq!(Error::from_code(e.code()), Some(e));
    }
}

#[test]
fn error_codes_are_the_documented_bytes() {
    assert_eq!(Error::FileNotFound.code(), 0x02);
    assert_eq!(Error::AccessDenied.code(), 0x05);
    assert_eq!(Error::FileExists.code(), 0x50);
    assert_eq!(Error::InvalidParameter.code(), 0x57);
}

#[test]
fn unknown_error_codes_are_rejected() {
    assert_eq!(Error::from_code(0x00), None);
    assert_eq!(Error::from_code(0x07), None);
    assert_eq!(Error::from_code(0xFF), None);
}

#[test]
fn open_outcome_success_keeps_handle() {
    let r = File::open_outcome(5, false);
    assert_eq!(r, Ok(File { handle: 5 }));
}

#[test]
fn open_outcome_failure_decodes_low_byte() {
    let r = File::open_outcome(0x1202, true);
    assert_eq!(r, Err(Some(Error::FileNotFound)));
}

#[test]
fn open_outcome_unknown_code_is_flagged() {
    let r = File::open_outcome(0x0007, true);
    assert_eq!(r, Err(None));
}

#[test]
fn flags_combine_bitwise() {
    let rh = Flags::r().bitor(Flags::h());
    assert_eq!(rh.bits, 0x03);
    let mut f = Flags::s();
    f.bitor_assign(Flags::a());
    assert_eq!(f.bits, 0x24);
    assert_eq!(Flags::v().bits, 0x08);
    assert_eq!(Flags::d().bits, 0x10);
}

#[test]
fn far_ptr_linear_address() {
    let p = FarPtr::new(0x1234, 0x5678);
    assert_eq!(p.as_ptr(), 0x1234 * 16 + 0x5678);
    assert_eq!(FarPtr::new(0, 0).as_ptr(), 0);
    assert_eq!(FarPtr::new(0xFFFF, 0xFFFF).as_ptr(), 0xFFFF * 16 + 0xFFFF);
}

#[test]
fn open_options_builder_sets_switches() {
    let o = OpenOptions::new();
    assert!(!o.append && !o.create && !o.create_new && !o.read && !o.truncate && !o.write);
    let o = OpenOptions::new().write(true).create(true).truncate(true);
    assert!(o.write && o.create && o.truncate);
    assert!(!o.read && !o.append && !o.create_new);
    let o = OpenOptions::new().read(true).write(true).create_new(true);
    assert!(o.read && o.write && o.create_new);
    let o = OpenOptions::new().append(true).append(false);
    assert!(!o.append);
    let d: OpenOptions = Default::default();
    assert_eq!(d, OpenOptions::new());
}

#[test]
fn open_options_outcome_reads_flag_bit() {
    let o = OpenOptions::new().read(true);
    assert_eq!(o.open_outcome(3, 1), Ok(StdFile { handle: 3 }));
    assert_eq!(o.open_outcome(3, 0), Err(()));
}

#[test]
fn psp_parent_is_none_for_root() {
    let mut psp = Psp {
        int20h: [0; 2],
        last_block_seg: 0,
        terminate_ptr: FarPtr::new(0, 0),
        ctrl_break_ptr: FarPtr::new(0, 0),
        critical_error_ptr: FarPtr::new(0, 0),
        parent_psp: 0,
        file_handles: [0; 20],
        env_segment: 0,
        dos_sp: [0; 4],
        dispatcher: [0; 2],
        reserved0: [0; 10],
        fcb1: [0; 16],
        fcb2: [0; 20],
        unused: [0; 36],
        cmd_tail: [0; 128],
    };
    assert_eq!(psp.parent(), None);
    psp.parent_psp = 0x1234;
    assert_eq!(psp.parent(), Some(0x1234));
}
