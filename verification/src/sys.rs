//! Service numbers and the runtime version report.

use vstd::prelude::*;

verus! {

/// The services the runtime requests, by the number each is called
/// with.
#[derive(Debug, Clone, Copy, PartialEq, Eq, Structural)]
pub enum Service {
    Print,
    PrintChar,
    Terminate,
    Version,
}

impl Service {
    /// The number the service is requested by.
    pub open spec fn code_spec(self) -> u8 {
        match self {
            Service::Print => 0x09,
            Service::PrintChar => 0x02,
            Service::Terminate => 0x4C,
            Service::Version => 0x30,
        }
    }

    pub fn code(self) -> (c: u8)
        ensures
            c == self.code_spec(),
    {
        match self {
            Service::Print => 0x09,
            Service::PrintChar => 0x02,
            Service::Terminate => 0x4C,
            Service::Version => 0x30,
        }
    }
}

/// The version the runtime reports: the register pair of the version
/// service call.
#[derive(Debug, Clone, Copy, PartialEq, Eq, Structural)]
pub struct Version {
    pub major: u8,
    pub minor: u8,
}

impl Version {
    pub fn new(major: u8, minor: u8) -> (v: Version)
        ensures
            v == (Version { major, minor }),
    {
        Version { major, minor }
    }
}

} // verus!
