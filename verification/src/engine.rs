//! The engine adapter's decisions: which durability mode a run selects and
//! the backend-specific tuning the multi-version engine is opened with.
//! The backends themselves are opaque transactional stores driven by the
//! surrounding harness; everything they are configured with is decided
//! here.

use vstd::prelude::*;

verus! {

/// Bytes in one gigabyte.
pub const GIGABYTE: u64 = 0x40000000;

/// Bytes in one terabyte.
pub const TERABYTE: u64 = 0x10000000000;

/// Whether a commit blocks until data reaches stable storage, or returns
/// immediately with the flush deferred to one explicit end-of-run sync.
#[derive(Debug, Copy, Clone, PartialEq, Eq, Structural)]
pub enum Durability {
    /// Every commit is synchronous.
    Durable,
    /// Commits do not sync; one final explicit flush is owed at run end.
    NoSync,
}

/// The durability mode a run selects: deferred when per-commit syncing is
/// switched off, synchronous otherwise.
pub fn durability_mode(no_sync: bool) -> (d: Durability)
    ensures
        d == (if no_sync {
            Durability::NoSync
        } else {
            Durability::Durable
        }),
{
    if no_sync {
        Durability::NoSync
    } else {
        Durability::Durable
    }
}

/// Tuning the multi-version paged engine is opened with.
#[derive(Debug, Copy, Clone)]
pub struct MdbxTuning {
    /// Maximum number of named tables the environment may hold.
    pub max_tables: u64,
    /// Page size in bytes of a newly created database.
    pub page_size: usize,
    /// Upper bound of the database file size, in bytes.
    pub max_size: u64,
    /// Step in bytes by which the database file grows.
    pub growth_step: u64,
    /// Free-space threshold above which the file would shrink; zero means
    /// the database never shrinks.
    pub shrink_threshold: u64,
    /// Durability of commits.
    pub durability: Durability,
}

/// The tuning the harness opens the multi-version engine with: up to 256
/// tables, 4 KiB pages, a maximum database size of 4 terabytes grown in
/// increments of 1 gigabyte, never shrinking, with the durability mode the
/// run selected.
pub fn mdbx_tuning(no_sync: bool) -> (t: MdbxTuning)
    ensures
        t.max_tables == 256,
        t.page_size == 4096,
        t.max_size == 4 * TERABYTE,
        t.growth_step == GIGABYTE,
        t.shrink_threshold == 0,
        t.durability == (if no_sync {
            Durability::NoSync
        } else {
            Durability::Durable
        }),
{
    MdbxTuning {
        max_tables: 256,
        page_size: 4096,
        max_size: 4 * TERABYTE,
        growth_step: GIGABYTE,
        shrink_threshold: 0,
        durability: durability_mode(no_sync),
    }
}

} // verus!
