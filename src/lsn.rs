use vstd::prelude::*;

verus! {

/// A position in the write-ahead log. Positions are totally ordered.
#[derive(Debug, Clone, Copy, PartialEq, Eq, Structural, PartialOrd, Ord, Hash)]
pub struct Lsn(pub u64);

} // verus!
