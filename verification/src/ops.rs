//! The register operations that the sensor's procedures ask for, one at a
//! time: the caller performs each on the bus and hands the outcome back.
use vstd::prelude::*;
use crate::error::Error;

verus! {

/// One register operation.
#[derive(Debug, Clone, Copy, PartialEq, Eq, Structural)]
pub enum Op {
    /// Read the register at this address; its value is handed back.
    Read(u8),
    /// Write the value to the register at this address.
    Write(u8, u32),
    /// Wait this many milliseconds.
    DelayMs(u32),
}

/// What a procedure asks for next: an operation, or the end with its
/// outcome.
#[derive(Debug)]
pub enum Action<T, E> {
    Do(Op),
    Finish(Result<T, Error<E>>),
}

} // verus!
