//! The service layer's own vocabulary: error codes, file-attribute
//! flags, file handles and segmented far pointers.

use vstd::prelude::*;

verus! {

/// An error code the service layer reports.  A code arrives as a raw
/// byte; [`Error::from_code`] validates it with a bounds-checked lookup
/// instead of reinterpreting the byte blindly.
#[derive(Debug, Clone, Copy, PartialEq, Eq, Structural)]
pub enum Error {
    InvalidFunction,
    FileNotFound,
    PathNotFound,
    TooManyOpenFiles,
    AccessDenied,
    InvalidHandle,
    InsufficientMemory,
    InvalidFormat,
    InvalidAccessCode,
    InvalidDrive,
    PrinterOutOfPaper,
    WriteFault,
    ReadFault,
    GeneralFailure,
    SharingViolation,
    LockViolation,
    DiskChangeInvalid,
    InvalidSharingBuffer,
    CodePageMismatch,
    FileExists,
    InvalidPassword,
    InvalidParameter,
}

impl Error {
    /// The raw byte each error is reported as.
    pub open spec fn code_spec(self) -> u8 {
        match self {
            Error::InvalidFunction => 0x01,
            Error::FileNotFound => 0x02,
            Error::PathNotFound => 0x03,
            Error::TooManyOpenFiles => 0x04,
            Error::AccessDenied => 0x05,
            Error::InvalidHandle => 0x06,
            Error::InsufficientMemory => 0x08,
            Error::InvalidFormat => 0x0B,
            Error::InvalidAccessCode => 0x0C,
            Error::InvalidDrive => 0x0F,
            Error::PrinterOutOfPaper => 0x1C,
            Error::WriteFault => 0x1D,
            Error::ReadFault => 0x1E,
            Error::GeneralFailure => 0x1F,
            Error::SharingViolation => 0x20,
            Error::LockViolation => 0x21,
            Error::DiskChangeInvalid => 0x22,
            Error::InvalidSharingBuffer => 0x24,
            Error::CodePageMismatch => 0x25,
            Error::FileExists => 0x50,
            Error::InvalidPassword => 0x56,
            Error::InvalidParameter => 0x57,
        }
    }

    /// The error a raw byte stands for, when it stands for one.
    pub open spec fn from_code_spec(code: u8) -> Option<Error> {
        match code {
            0x01u8 => Some(Error::InvalidFunction),
            0x02u8 => Some(Error::FileNotFound),
            0x03u8 => Some(Error::PathNotFound),
            0x04u8 => Some(Error::TooManyOpenFiles),
            0x05u8 => Some(Error::AccessDenied),
            0x06u8 => Some(Error::InvalidHandle),
            0x08u8 => Some(Error::InsufficientMemory),
            0x0Bu8 => Some(Error::InvalidFormat),
            0x0Cu8 => Some(Error::InvalidAccessCode),
            0x0Fu8 => Some(Error::InvalidDrive),
            0x1Cu8 => Some(Error::PrinterOutOfPaper),
            0x1Du8 => Some(Error::WriteFault),
            0x1Eu8 => Some(Error::ReadFault),
            0x1Fu8 => Some(Error::GeneralFailure),
            0x20u8 => Some(Error::SharingViolation),
            0x21u8 => Some(Error::LockViolation),
            0x22u8 => Some(Error::DiskChangeInvalid),
            0x24u8 => Some(Error::InvalidSharingBuffer),
            0x25u8 => Some(Error::CodePageMismatch),
            0x50u8 => Some(Error::FileExists),
            0x56u8 => Some(Error::InvalidPassword),
            0x57u8 => Some(Error::InvalidParameter),
            _ => None,
        }
    }

    /// Validates a raw error byte: the error it names, or nothing for a
    /// byte the service layer never reports.
    pub fn from_code(code: u8) -> (r: Option<Error>)
        ensures
            r == Self::from_code_spec(code),
    {
        match code {
            0x01 => Some(Error::InvalidFunction),
            0x02 => Some(Error::FileNotFound),
            0x03 => Some(Error::PathNotFound),
            0x04 => Some(Error::TooManyOpenFiles),
            0x05 => Some(Error::AccessDenied),
            0x06 => Some(Error::InvalidHandle),
            0x08 => Some(Error::InsufficientMemory),
            0x0B => Some(Error::InvalidFormat),
            0x0C => Some(Error::InvalidAccessCode),
            0x0F => Some(Error::InvalidDrive),
            0x1C => Some(Error::PrinterOutOfPaper),
            0x1D => Some(Error::WriteFault),
            0x1E => Some(Error::ReadFault),
            0x1F => Some(Error::GeneralFailure),
            0x20 => Some(Error::SharingViolation),
            0x21 => Some(Error::LockViolation),
            0x22 => Some(Error::DiskChangeInvalid),
            0x24 => Some(Error::InvalidSharingBuffer),
            0x25 => Some(Error::CodePageMismatch),
            0x50 => Some(Error::FileExists),
            0x56 => Some(Error::InvalidPassword),
            0x57 => Some(Error::InvalidParameter),
            _ => None,
        }
    }

    /// The raw byte this error is reported as.
    pub fn code(self) -> (c: u8)
        ensures
            c == self.code_spec(),
    {
        match self {
            Error::InvalidFunction => 0x01,
            Error::FileNotFound => 0x02,
            Error::PathNotFound => 0x03,
            Error::TooManyOpenFiles => 0x04,
            Error::AccessDenied => 0x05,
            Error::InvalidHandle => 0x06,
            Error::InsufficientMemory => 0x08,
            Error::InvalidFormat => 0x0B,
            Error::InvalidAccessCode => 0x0C,
            Error::InvalidDrive => 0x0F,
            Error::PrinterOutOfPaper => 0x1C,
            Error::WriteFault => 0x1D,
            Error::ReadFault => 0x1E,
            Error::GeneralFailure => 0x1F,
            Error::SharingViolation => 0x20,
            Error::LockViolation => 0x21,
            Error::DiskChangeInvalid => 0x22,
            Error::InvalidSharingBuffer => 0x24,
            Error::CodePageMismatch => 0x25,
            Error::FileExists => 0x50,
            Error::InvalidPassword => 0x56,
            Error::InvalidParameter => 0x57,
        }
    }
}

/// Law: an error's code names that error back, and a valid code
/// round-trips through the error it names.
pub proof fn lemma_error_code_round_trip(e: Error, code: u8)
    ensures
        Error::from_code_spec(e.code_spec()) == Some(e),
        Error::from_code_spec(code) matches Some(x) ==> x.code_spec() == code,
{
}

/// An open file's service handle.  Obtaining and releasing the handle
/// are service calls made outside the library; [`File::open_outcome`]
/// reads the call's result.
#[derive(Debug, Clone, Copy, PartialEq, Eq, Structural)]
pub struct File {
    pub handle: u16,
}

impl File {
    /// Decodes the outcome of the open service call from the register it
    /// returned and the carry flag it left.  A set carry flag means the
    /// low byte is an error code; a code the service layer never reports
    /// decodes to `Err(None)` rather than being reinterpreted blindly.
    pub fn open_outcome(ax: u16, carry: bool) -> (r: Result<File, Option<Error>>)
        ensures
            r == if carry {
                Err::<File, Option<Error>>(Error::from_code_spec((ax & 0xFF) as u8))
            } else {
                Ok::<File, Option<Error>>(File { handle: ax })
            },
    {
        if carry {
            Err(Error::from_code((ax & 0xFF) as u8))
        } else {
            Ok(File { handle: ax })
        }
    }
}

/// A file's attribute flags, one bit each.
#[derive(Debug, Clone, Copy, PartialEq, Eq, Structural)]
pub struct Flags {
    pub bits: u8,
}

impl Flags {
    /// Read-only.
    pub fn r() -> (f: Flags)
        ensures
            f.bits == 0x01,
    {
        Flags { bits: 0x01 }
    }

    /// Hidden.
    pub fn h() -> (f: Flags)
        ensures
            f.bits == 0x02,
    {
        Flags { bits: 0x02 }
    }

    /// System.
    pub fn s() -> (f: Flags)
        ensures
            f.bits == 0x04,
    {
        Flags { bits: 0x04 }
    }

    /// Volume.
    pub fn v() -> (f: Flags)
        ensures
            f.bits == 0x08,
    {
        Flags { bits: 0x08 }
    }

    /// Directory.
    pub fn d() -> (f: Flags)
        ensures
            f.bits == 0x10,
    {
        Flags { bits: 0x10 }
    }

    /// Archive.
    pub fn a() -> (f: Flags)
        ensures
            f.bits == 0x20,
    {
        Flags { bits: 0x20 }
    }

    /// The union of two flag sets.
    pub fn bitor(self, rhs: Flags) -> (f: Flags)
        ensures
            f.bits == self.bits | rhs.bits,
    {
        Flags { bits: self.bits | rhs.bits }
    }

    /// Adds `rhs`'s flags to this set.
    pub fn bitor_assign(&mut self, rhs: Flags)
        ensures
            final(self).bits == old(self).bits | rhs.bits,
    {
        self.bits = self.bits | rhs.bits;
    }
}

/// The program segment prefix: the block the loader places before a
/// program's image.  The fields mirror the block's layout; reading the
/// block out of memory is the machine's business.
#[derive(Debug, Clone, Copy)]
pub struct Psp {
    pub int20h: [u8; 2],
    pub last_block_seg: u16,
    pub terminate_ptr: FarPtr,
    pub ctrl_break_ptr: FarPtr,
    pub critical_error_ptr: FarPtr,
    pub parent_psp: u16,
    pub file_handles: [u8; 20],
    pub env_segment: u16,
    pub dos_sp: [u8; 4],
    pub dispatcher: [u8; 2],
    pub reserved0: [u8; 10],
    pub fcb1: [u8; 16],
    pub fcb2: [u8; 20],
    pub unused: [u8; 36],
    pub cmd_tail: [u8; 128],
}

impl Psp {
    /// The segment of the parent program's prefix, or nothing for the
    /// root program.  Following the segment into memory is left to the
    /// machine.
    pub fn parent(&self) -> (r: Option<u16>)
        ensures
            r == if self.parent_psp == 0 {
                None::<u16>
            } else {
                Some(self.parent_psp)
            },
    {
        if self.parent_psp == 0 {
            None
        } else {
            Some(self.parent_psp)
        }
    }
}

/// A segmented far pointer: a 16-bit segment and a 16-bit offset naming
/// the linear address `segment * 16 + offset`.
#[derive(Debug, Clone, Copy, PartialEq, Eq, Structural)]
pub struct FarPtr {
    pub segment: u16,
    pub offset: u16,
}

impl FarPtr {
    pub fn new(segment: u16, offset: u16) -> (p: FarPtr)
        ensures
            p == (FarPtr { segment, offset }),
    {
        FarPtr { segment, offset }
    }

    /// The linear address the pointer names.
    pub fn as_ptr(self) -> (addr: u32)
        ensures
            addr == self.segment * 16 + self.offset,
    {
        (self.segment as u32) * 16 + (self.offset as u32)
    }
}

} // verus!
