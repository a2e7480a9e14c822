use vstd::prelude::*;

verus! {

/// A failure of a memory access or of the execution engine.
///
/// Every error is an ordinary returned value: nothing is logged, retried or
/// swallowed, and no error is ever fatal to the process.
#[derive(Debug)]
#[non_exhaustive]
pub enum Error {
    /// The addressed cell does not exist in this memory instance.
    AddressOutOfRange(usize),
    /// A write was attempted on a cell that the memory designates read-only.
    ImmutableAddress(usize),
    /// A fetched value cannot be represented as an address index.
    AddressConversionFailed,
    /// Escape hatch for memory implementations with failure modes of their
    /// own (for example I/O); the engine passes it through uninterpreted.
    Custom(String),
}

} // verus!
