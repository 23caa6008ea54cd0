//! File-open options.
//!
//! Opening a file is a service call; what the library owns is the option
//! set the call is made with and the reading of its outcome.  The
//! interrupt itself, and the path it is given, live outside.

use vstd::prelude::*;

verus! {

/// An open file's service handle.
#[derive(Debug, Clone, Copy, PartialEq, Eq, Structural)]
pub struct File {
    pub handle: u16,
}

/// The mode switches an open call can be configured with.
#[derive(Debug, Clone, Copy, PartialEq, Eq, Structural)]
pub struct OpenOptions {
    pub append: bool,
    pub create: bool,
    pub create_new: bool,
    pub read: bool,
    pub truncate: bool,
    pub write: bool,
}

impl OpenOptions {
    /// A blank set of options: every switch off.
    pub fn new() -> (r: OpenOptions)
        ensures
            r == (OpenOptions {
                append: false,
                create: false,
                create_new: false,
                read: false,
                truncate: false,
                write: false,
            }),
    {
        OpenOptions {
            append: false,
            create: false,
            create_new: false,
            read: false,
            truncate: false,
            write: false,
        }
    }

    pub fn append(self, append: bool) -> (r: OpenOptions)
        ensures
            r == (OpenOptions { append, ..self }),
    {
        OpenOptions { append, ..self }
    }

    pub fn create(self, create: bool) -> (r: OpenOptions)
        ensures
            r == (OpenOptions { create, ..self }),
    {
        OpenOptions { create, ..self }
    }

    pub fn create_new(self, create_new: bool) -> (r: OpenOptions)
        ensures
            r == (OpenOptions { create_new, ..self }),
    {
        OpenOptions { create_new, ..self }
    }

    pub fn read(self, read: bool) -> (r: OpenOptions)
        ensures
            r == (OpenOptions { read, ..self }),
    {
        OpenOptions { read, ..self }
    }

    pub fn truncate(self, truncate: bool) -> (r: OpenOptions)
        ensures
            r == (OpenOptions { truncate, ..self }),
    {
        OpenOptions { truncate, ..self }
    }

    pub fn write(self, write: bool) -> (r: OpenOptions)
        ensures
            r == (OpenOptions { write, ..self }),
    {
        OpenOptions { write, ..self }
    }

    /// Reads the outcome of the open service call: the register the call
    /// returned and the flags word it left.  A set low bit in the flags
    /// word is taken as success — deliberately the opposite reading to
    /// the carry convention of [`crate::dos::File::open_outcome`], which
    /// is how this runtime's open call behaves.
    pub fn open_outcome(&self, handle: u16, flags: u16) -> (r: Result<File, ()>)
        ensures
            r == if flags & 1 != 0 {
                Ok::<File, ()>(File { handle })
            } else {
                Err::<File, ()>(())
            },
    {
        if flags & 1 != 0 {
            Ok(File { handle })
        } else {
            Err(())
        }
    }
}

impl Default for OpenOptions {
    fn default() -> (r: Self)
        ensures
            r == (OpenOptions {
                append: false,
                create: false,
                create_new: false,
                read: false,
                truncate: false,
                write: false,
            }),
    {
        OpenOptions::new()
    }
}

/// Metadata about a file.  The service calls that would fill it in are
/// not implemented by the runtime.
#[derive(Debug, Clone, Copy, PartialEq, Eq, Structural)]
pub struct Metadata {}

} // verus!
