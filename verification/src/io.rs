//! Console output buffers and the byte-stream traits.
//!
//! The console takes a `'$'`-terminated run of code-page bytes.
//! [`print`] builds that run from ordinary text; sending it is the
//! hardware's business, not the library's.

use vstd::prelude::*;

verus! {

use crate::cp437::CP437Char;
use crate::cp437::encode_or_question;

/// The console's string terminator.
pub const STRING_TERMINATOR: u8 = 0x24;

/// Builds the `'$'`-terminated console buffer for `s`: each character as
/// its code-page byte, a question mark standing in for any the code page
/// cannot show.  The buffer the console takes holds at most 256 bytes,
/// terminator included, which bounds the text.
pub fn print(s: &str) -> (buf: Vec<u8>)
    requires
        s@.len() < 256,
    ensures
        buf@.len() == s@.len() + 1,
        forall|i: int| 0 <= i < s@.len() ==> buf@[i] == encode_or_question(#[trigger] s@[i]),
        buf@[s@.len() as int] == STRING_TERMINATOR,
{
    let len = s.unicode_len();
    let mut buf: Vec<u8> = Vec::new();
    let mut i: usize = 0;
    while i < len
        invariant
            len == s@.len(),
            i <= len,
            buf@.len() == i,
            forall|j: int| 0 <= j < i ==> buf@[j] == encode_or_question(#[trigger] s@[j]),
        decreases len - i,
    {
        let ch = s.get_char(i);
        match CP437Char::new(ch) {
            Some(c) => buf.push(c.as_byte()),
            None => buf.push(0x3F),
        }
        i += 1;
    }
    buf.push(STRING_TERMINATOR);
    buf
}

/// The error of the byte-stream operations.  The console and its disks
/// report nothing beyond failure itself.
#[derive(Debug, Clone, Copy, PartialEq, Eq, Structural)]
pub struct Error {}

/// A source of bytes.
pub trait Read {
    /// Pulls some bytes from this source into the buffer, returning how
    /// many were read.
    fn read(&mut self, buf: &mut Vec<u8>) -> Result<usize, Error>;
}

/// A sink for bytes.
pub trait Write {
    /// Writes a buffer into this writer, returning how many bytes were
    /// written.
    fn write(&mut self, buf: &[u8]) -> Result<usize, Error>;
}

} // verus!
