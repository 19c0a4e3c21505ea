use vstd::prelude::*;

verus! {

/// Why an operation was refused.
///
/// Every error is terminal for the operation that raised it, and an operation
/// that returns one has mutated nothing: effects are all-or-nothing.
#[derive(Clone, Copy, Debug, PartialEq, Eq, Structural)]
pub enum StoreError {
    /// The caller is not a signing authority, or does not match the
    /// `authority` stored on the record it tried to mutate.
    Authorization,
    /// A record was to be created in a slot that already holds one.
    Allocation,
    /// The supplied content does not fit the fixed content buffer.
    ContentTooLarge,
    /// The collection's document counter would fall below zero.
    CounterUnderflow,
    /// The collection's document counter would exceed its integer width.
    CounterOverflow,
}

} // verus!
