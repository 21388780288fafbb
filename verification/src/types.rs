use vstd::prelude::*;

verus! {

/// Ordinal of a sealed L1 batch: a unit grouping miniblocks for L1
/// settlement, numbered monotonically by the sequencer.
#[derive(Clone, Copy, Debug, PartialEq, Eq, Structural)]
pub struct L1BatchNumber(pub u32);

/// Ordinal of a sealed miniblock within the L2 stream.
#[derive(Clone, Copy, Debug, PartialEq, Eq, Structural)]
pub struct MiniblockNumber(pub u32);

/// An opaque 256-bit digest, stored as four 64-bit limbs. Equality is
/// bit-exact; the detector never looks inside a hash.
#[derive(Clone, Copy, Debug, PartialEq, Eq, Structural)]
pub struct H256(pub u64, pub u64, pub u64, pub u64);

} // verus!
