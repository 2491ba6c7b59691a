//! Choice of the access strategy from a file's size.

use vstd::prelude::*;

verus! {

/// Files below this size are loaded whole.
pub const SMALL_FILE_THRESHOLD: u64 = 1_000_000;

/// Files of this size or more are mapped, and only a leading window is read.
pub const LARGE_FILE_THRESHOLD: u64 = 100_000_000;

/// How the bytes of a file are obtained for one view.
#[derive(Debug, Clone, Copy, PartialEq, Eq, Structural)]
pub enum ViewStrategy {
    FullLoad,
    Streaming,
    MemoryMapped,
}

/// The strategy that a pair of thresholds assigns to a size.
pub open spec fn strategy_for(size: u64, small: u64, large: u64) -> ViewStrategy {
    if size < small {
        ViewStrategy::FullLoad
    } else if size < large {
        ViewStrategy::Streaming
    } else {
        ViewStrategy::MemoryMapped
    }
}

/// Position of a strategy in the order FullLoad, Streaming, MemoryMapped.
pub open spec fn strategy_rank(s: ViewStrategy) -> int {
    match s {
        ViewStrategy::FullLoad => 0,
        ViewStrategy::Streaming => 1,
        ViewStrategy::MemoryMapped => 2,
    }
}

/// Strategy for a file of `size` bytes under the given thresholds.
pub fn select_strategy_with(size: u64, small: u64, large: u64) -> (s: ViewStrategy)
    ensures
        s == strategy_for(size, small, large),
{
    if size < small {
        ViewStrategy::FullLoad
    } else if size < large {
        ViewStrategy::Streaming
    } else {
        ViewStrategy::MemoryMapped
    }
}

/// Strategy for a file of `size` bytes under the two standard thresholds.
pub fn select_strategy(size: u64) -> (s: ViewStrategy)
    ensures
        s == strategy_for(size, SMALL_FILE_THRESHOLD, LARGE_FILE_THRESHOLD),
{
    select_strategy_with(size, SMALL_FILE_THRESHOLD, LARGE_FILE_THRESHOLD)
}

/// The strategy for a file whose metadata give a size of `size` bytes.
pub fn determine_strategy(size: u64) -> (s: ViewStrategy)
    ensures
        s == strategy_for(size, SMALL_FILE_THRESHOLD, LARGE_FILE_THRESHOLD),
{
    select_strategy(size)
}

/// A larger file never gets an earlier strategy: with ordered thresholds the
/// rank of the chosen strategy does not fall as the size grows.
pub proof fn lemma_strategy_monotonic(a: u64, b: u64, small: u64, large: u64)
    requires
        a <= b,
        small <= large,
    ensures
        strategy_rank(strategy_for(a, small, large)) <= strategy_rank(
            strategy_for(b, small, large),
        ),
{
}

} // verus!
