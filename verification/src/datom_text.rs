//! The bounds of one datom text conversion at the CLI edge.
use vstd::prelude::*;

verus! {

/// Composition steps one command-line value may spend.
pub const COMPOSITION_STEPS: i64 = 65_536;

/// Bytes of argument text the reader may consume.
pub const READER_BYTES: usize = 1_048_576;

/// Nesting depth a composition may descend.
pub const MAXIMUM_DEPTH: i64 = 256;

/// What one text conversion may still spend.
#[derive(Debug, Clone, Copy, PartialEq, Eq, Structural)]
pub struct Budget {
    pub remaining: i64,
    pub reader_remaining: usize,
    pub depth: i64,
    pub maximum_depth: i64,
}

/// A fresh budget for one text conversion.
pub fn budget() -> (fresh: Budget)
    ensures
        fresh == (Budget {
            remaining: COMPOSITION_STEPS,
            reader_remaining: READER_BYTES,
            depth: 0,
            maximum_depth: MAXIMUM_DEPTH,
        }),
{
    Budget {
        remaining: COMPOSITION_STEPS,
        reader_remaining: READER_BYTES,
        depth: 0,
        maximum_depth: MAXIMUM_DEPTH,
    }
}

} // verus!
