//! The ways in which loading or running a program can fail.

use vstd::prelude::*;

verus! {

/// A fatal condition. None of them can be recovered from while a program
/// runs: the run ends and the error goes to the caller.
#[derive(Debug, Clone, Copy, PartialEq, Eq)]
pub enum VmError {
    /// A program image whose length in bytes is odd.
    MalformedImage,
    /// A trap asked for an input byte and the input had none to give.
    IOFailure,
    /// One of the two reserved opcodes was decoded.
    InvalidOpcode,
}

} // verus!
