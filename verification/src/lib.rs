//! A small standard-library substitute for a single-tasking real-mode
//! machine, centred on its two clocks.
//!
//! The heart of the crate is [`time`]: a monotonic clock that rebuilds a
//! nondecreasing 64-bit tick count from a 32-bit hardware counter that
//! resets at midnight, and a wall clock anchored to the Unix epoch with
//! fallible ordering.
//!
//! The library never touches the hardware itself.  Every routine that the
//! machine would answer with an interrupt takes the raw register values as
//! plain arguments and is verified for every value the hardware could
//! hand back.

pub mod cp437;
pub mod dos;
pub mod fs;
pub mod io;
pub mod random;
pub mod sys;
pub mod time;
