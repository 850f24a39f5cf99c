//! Run configuration: engine selection, fill parameters, and the policy
//! applied when the target storage location already exists.

use vstd::prelude::*;
use vstd::string::StringSliceAdditionalSpecFns;

verus! {

/// Which storage backend a run drives.
#[derive(Debug, Copy, Clone, PartialEq, Eq, Structural)]
pub enum EngineKind {
    /// The single-file multi-version paged engine.
    Mdbx,
    /// The log-structured merge engine.
    Rocksdb,
}

/// Errors raised before any storage I/O is attempted.
#[derive(Debug, PartialEq, Eq, Structural)]
pub enum ConfigError {
    /// The engine-kind name is not one of the recognised spellings.
    UnknownEngineKind,
    /// The target location exists and no policy (overwrite or continue)
    /// resolves the conflict.
    ExistingDatabase,
}

/// Compares two byte slices for element-wise equality.
fn bytes_eq(a: &[u8], b: &[u8]) -> (r: bool)
    ensures
        r == (a@ == b@),
{
    if a.len() != b.len() {
        proof {
            assert(a@ != b@) by {
                if a@ == b@ {
                    assert(a@.len() == b@.len());
                }
            }
        }
        return false;
    }
    let mut i: usize = 0;
    while i < a.len()
        invariant
            i <= a@.len(),
            a@.len() == b@.len(),
            forall|j: int| 0 <= j < i ==> a@[j] == b@[j],
        decreases a@.len() - i,
    {
        if a[i] != b[i] {
            return false;
        }
        i += 1;
    }
    proof {
        assert(a@ =~= b@);
    }
    true
}

/// Default number of items per committed batch.
pub const DEFAULT_BATCH_SZ: usize = 1000;

/// Default length in bytes of each generated value.
pub const DEFAULT_VALUE_SZ: usize = 32;

/// Resolution of the cold-key probability: a probability is a numerator
/// over this fixed denominator.
pub const COLD_SCALE: u32 = 1000000;

/// Default cold-key probability numerator (3 in 10 over [`COLD_SCALE`]).
pub const DEFAULT_COLD_NUM: u32 = 300000;

/// Parameters of one fill run.
#[derive(Debug, Clone, Copy)]
pub struct FillOpts {
    /// Total number of items to insert.
    pub n: usize,
    /// Number of items per committed batch.
    pub batch_sz: usize,
    /// Length in bytes of each generated value.
    pub value_sz: usize,
    /// Cold-key probability numerator over [`COLD_SCALE`].
    pub cold_num: u32,
}

impl FillOpts {
    /// Batches hold at least one item and the cold probability lies in
    /// [0, 1].
    pub open spec fn wf(&self) -> bool {
        &&& 0 < self.batch_sz
        &&& self.cold_num <= COLD_SCALE
    }

    /// Options with everything but the item count at its default.
    pub fn with_defaults(n: usize) -> (r: FillOpts)
        ensures
            r.wf(),
            r.n == n,
            r.batch_sz == DEFAULT_BATCH_SZ,
            r.value_sz == DEFAULT_VALUE_SZ,
            r.cold_num == DEFAULT_COLD_NUM,
    {
        FillOpts { n, batch_sz: DEFAULT_BATCH_SZ, value_sz: DEFAULT_VALUE_SZ, cold_num: DEFAULT_COLD_NUM }
    }
}

/// The selected operation of a run.
#[derive(Debug, Clone, Copy)]
pub enum SubCommand {
    /// Insert items under the batched fill workload.
    Fill(FillOpts),
    /// Print the backend occupancy snapshot of an existing database.
    Stat,
}

impl SubCommand {
    /// The fill parameters, when this is a fill run.
    pub fn as_fill_opts(&self) -> (r: Option<&FillOpts>)
        ensures
            match self {
                SubCommand::Fill(o) => r == Some(o),
                SubCommand::Stat => r is None,
            },
    {
        match self {
            SubCommand::Fill(opts) => Some(opts),
            SubCommand::Stat => None,
        }
    }
}

/// What to do about the target storage location before the engine opens.
#[derive(Debug, Copy, Clone, PartialEq, Eq, Structural)]
pub enum PreflightAction {
    /// Nothing exists at the target; open it fresh.
    OpenFresh,
    /// Remove the existing state first, then open fresh.
    RemoveThenOpen,
    /// Keep the existing state and append to it.
    ContinueExisting,
}

/// Resolves the existing-database policy before any engine I/O: no conflict
/// when nothing exists at the target; the overwrite flag wins when set;
/// otherwise the continue flag keeps the existing state; with neither flag
/// the run aborts without mutating anything.
pub fn resolve_preflight(exists: bool, overwrite: bool, cont: bool) -> (r: Result<
    PreflightAction,
    ConfigError,
>)
    ensures
        !exists ==> r == Ok::<PreflightAction, ConfigError>(PreflightAction::OpenFresh),
        exists && overwrite ==> r == Ok::<PreflightAction, ConfigError>(
            PreflightAction::RemoveThenOpen,
        ),
        exists && !overwrite && cont ==> r == Ok::<PreflightAction, ConfigError>(
            PreflightAction::ContinueExisting,
        ),
        exists && !overwrite && !cont ==> r == Err::<PreflightAction, ConfigError>(
            ConfigError::ExistingDatabase,
        ),
{
    if !exists {
        Ok(PreflightAction::OpenFresh)
    } else if overwrite {
        Ok(PreflightAction::RemoveThenOpen)
    } else if cont {
        Ok(PreflightAction::ContinueExisting)
    } else {
        Err(ConfigError::ExistingDatabase)
    }
}

/// The three recognised engine-kind spellings have pairwise different byte
/// encodings (their lengths already differ).
proof fn lemma_kind_names_distinct()
    ensures
        "mdbx".spec_bytes() != "rocksdb".spec_bytes(),
        "mdbx".spec_bytes() != "rdb".spec_bytes(),
        "rocksdb".spec_bytes() != "rdb".spec_bytes(),
{
    reveal_strlit("mdbx");
    reveal_strlit("rocksdb");
    reveal_strlit("rdb");
    assert(vstd::string::is_ascii("mdbx"));
    assert(vstd::string::is_ascii("rocksdb"));
    assert(vstd::string::is_ascii("rdb"));
    vstd::utf8::is_ascii_chars_encode_utf8("mdbx"@);
    vstd::utf8::is_ascii_chars_encode_utf8("rocksdb"@);
    vstd::utf8::is_ascii_chars_encode_utf8("rdb"@);
    assert("mdbx".spec_bytes().len() == 4);
    assert("rocksdb".spec_bytes().len() == 7);
    assert("rdb".spec_bytes().len() == 3);
}

impl EngineKind {
    /// Resolves an engine-kind name. The multi-version engine answers to
    /// "mdbx"; the log-structured engine to "rocksdb" or its short form
    /// "rdb"; anything else is a configuration error.
    pub fn parse(s: &str) -> (r: Result<EngineKind, ConfigError>)
        ensures
            r == Ok::<EngineKind, ConfigError>(EngineKind::Mdbx) <==> s.spec_bytes()
                == "mdbx".spec_bytes(),
            r == Ok::<EngineKind, ConfigError>(EngineKind::Rocksdb) <==> (s.spec_bytes()
                == "rocksdb".spec_bytes() || s.spec_bytes() == "rdb".spec_bytes()),
            r == Err::<EngineKind, ConfigError>(ConfigError::UnknownEngineKind) <==> (s.spec_bytes()
                != "mdbx".spec_bytes() && s.spec_bytes() != "rocksdb".spec_bytes()
                && s.spec_bytes() != "rdb".spec_bytes()),
    {
        proof {
            lemma_kind_names_distinct();
        }
        let bs = s.as_bytes();
        if bytes_eq(bs, "mdbx".as_bytes()) {
            Ok(EngineKind::Mdbx)
        } else if bytes_eq(bs, "rocksdb".as_bytes()) {
            Ok(EngineKind::Rocksdb)
        } else if bytes_eq(bs, "rdb".as_bytes()) {
            Ok(EngineKind::Rocksdb)
        } else {
            Err(ConfigError::UnknownEngineKind)
        }
    }
}

} // verus!
