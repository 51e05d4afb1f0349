use vstd::prelude::*;

verus! {

/// A failure that originates in the item store.
#[derive(Clone, Copy, Debug, PartialEq, Eq, Structural)]
pub enum StoreError {
    /// The identifier sequence has reached the largest `i32`; no row can be added.
    IdsExhausted,
    /// A price does not fit the column's fixed-point range (ten digits, two of them decimals).
    PriceOutOfRange,
}

/// What the data-access layer reports to its callers.
/// "Not found" is no error: lookups return `None` and deletion returns `false`.
#[derive(Clone, Copy, Debug, PartialEq, Eq, Structural)]
pub enum DbError {
    /// The connection string is missing from the configuration.
    Config,
    /// The store failed the operation; nothing was written.
    Store(StoreError),
}

} // verus!
