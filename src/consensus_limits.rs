use vstd::prelude::*;

verus! {

/// Largest block, in bytes, under the legacy rules.
pub const LEGACY_MAX_BLOCK_SIZE: usize = 1_000_000;

/// Most signature operations a block may hold under the legacy rules.
pub const LEGACY_MAX_BLOCK_SIGOPS: usize = 20_000;

/// The numeric ceilings that every checker of one verification call reads.
pub trait ConsensusLimits {
    spec fn sigops_ceiling(&self) -> usize;

    spec fn block_size_ceiling(&self) -> usize;

    spec fn transaction_size_ceiling(&self) -> usize;

    fn max_block_sigops(&self) -> (r: usize)
        ensures
            r == self.sigops_ceiling(),
    ;

    fn max_block_size(&self) -> (r: usize)
        ensures
            r == self.block_size_ceiling(),
    ;

    fn max_transaction_size(&self) -> (r: usize)
        ensures
            r == self.transaction_size_ceiling(),
    ;
}

/// Temporary limits that guarded the network against denial of service in its infancy.
#[derive(Clone, Copy, Debug, PartialEq, Eq)]
pub struct LegacyLimits {}

impl LegacyLimits {
    pub fn new() -> (r: Self)
        ensures
            r.sigops_ceiling() == LEGACY_MAX_BLOCK_SIGOPS,
            r.block_size_ceiling() == LEGACY_MAX_BLOCK_SIZE,
            r.transaction_size_ceiling() == LEGACY_MAX_BLOCK_SIZE,
    {
        LegacyLimits {}
    }
}

impl ConsensusLimits for LegacyLimits {
    open spec fn sigops_ceiling(&self) -> usize {
        LEGACY_MAX_BLOCK_SIGOPS
    }

    open spec fn block_size_ceiling(&self) -> usize {
        LEGACY_MAX_BLOCK_SIZE
    }

    open spec fn transaction_size_ceiling(&self) -> usize {
        LEGACY_MAX_BLOCK_SIZE
    }

    fn max_block_sigops(&self) -> (r: usize) {
        LEGACY_MAX_BLOCK_SIGOPS
    }

    fn max_block_size(&self) -> (r: usize) {
        LEGACY_MAX_BLOCK_SIZE
    }

    fn max_transaction_size(&self) -> (r: usize) {
        LEGACY_MAX_BLOCK_SIZE
    }
}

/// The three ceilings of one limits policy, read once so that every checker of one
/// verification call sees the same values.
#[derive(Clone, Copy, Debug, PartialEq, Eq, Structural)]
pub struct LimitsSnapshot {
    pub max_block_sigops: usize,
    pub max_block_size: usize,
    pub max_transaction_size: usize,
}

/// Whether `s` holds the ceilings of `limits`.
pub open spec fn is_snapshot_of<L: ConsensusLimits>(s: LimitsSnapshot, limits: &L) -> bool {
    &&& s.max_block_sigops == limits.sigops_ceiling()
    &&& s.max_block_size == limits.block_size_ceiling()
    &&& s.max_transaction_size == limits.transaction_size_ceiling()
}

impl LimitsSnapshot {
    pub fn of<L: ConsensusLimits>(limits: &L) -> (r: Self)
        ensures
            is_snapshot_of(r, limits),
    {
        LimitsSnapshot {
            max_block_sigops: limits.max_block_sigops(),
            max_block_size: limits.max_block_size(),
            max_transaction_size: limits.max_transaction_size(),
        }
    }
}

} // verus!
