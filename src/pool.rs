//! The tuning applied to the database when its connection pool opens, and
//! to every connection the pool hands out.

use vstd::prelude::*;
use vstd::string::*;
use crate::text::{decimal_of, decimal_text};

verus! {

/// Settings applied on top of write-ahead logging and
/// `synchronous = NORMAL`, which the script always sets.
#[derive(Clone, Copy, Debug)]
pub struct PoolTuning {
    /// How long a statement waits for a lock before it reports busy.
    pub busy_timeout_ms: Option<u64>,
    /// The page cache size, in KiB.
    pub cache_size_kib: Option<u64>,
    /// Keep temporary tables and indices in memory.
    pub temp_store_memory: bool,
    /// Checkpoint the write-ahead log once it holds this many pages.
    pub wal_autocheckpoint_pages: Option<u64>,
    /// Enforce foreign keys.
    pub foreign_keys: bool,
}

/// `prefix` followed by the value and a semicolon, or nothing without a value.
pub open spec fn setting_text(prefix: Seq<char>, value: Option<u64>) -> Seq<char> {
    match value {
        Some(n) => prefix + decimal_of(n as nat) + ";"@,
        None => Seq::empty(),
    }
}

pub open spec fn switch_text(on: bool, text: Seq<char>) -> Seq<char> {
    if on {
        text
    } else {
        Seq::empty()
    }
}

/// The statements that apply `t`, in order. A cache size in KiB is written
/// negated, which is how the engine takes a size in KiB rather than pages.
pub open spec fn pragma_script_of(t: PoolTuning) -> Seq<char> {
    "PRAGMA journal_mode=WAL; PRAGMA synchronous=NORMAL;"@ + setting_text(
        " PRAGMA busy_timeout="@,
        t.busy_timeout_ms,
    ) + setting_text(" PRAGMA cache_size=-"@, t.cache_size_kib) + switch_text(t.temp_store_memory, " PRAGMA temp_store=MEMORY;"@) + setting_text(
        " PRAGMA wal_autocheckpoint="@,
        t.wal_autocheckpoint_pages,
    ) + switch_text(t.foreign_keys, " PRAGMA foreign_keys=ON;"@)
}

impl PoolTuning {
    /// The tuning every pool applies, suited to a database on a shared
    /// drive: a 30 s busy timeout, a 16 MiB page cache, temporary storage in
    /// memory, a checkpoint every 1000 pages, and foreign keys enforced.
    pub fn network_optimized() -> (r: PoolTuning)
        ensures
            r.busy_timeout_ms == Some(30000u64),
            r.cache_size_kib == Some(16384u64),
            r.temp_store_memory,
            r.wal_autocheckpoint_pages == Some(1000u64),
            r.foreign_keys,
    {
        PoolTuning {
            busy_timeout_ms: Some(30000),
            cache_size_kib: Some(16384),
            temp_store_memory: true,
            wal_autocheckpoint_pages: Some(1000),
            foreign_keys: true,
        }
    }

    /// The batch of statements to run on each fresh connection; most of these
    /// settings hold per connection only.
    pub fn pragma_script(&self) -> (r: String)
        ensures
            r@ == pragma_script_of(*self),
    {
        let mut s = String::from_str("PRAGMA journal_mode=WAL; PRAGMA synchronous=NORMAL;");
        let ghost s0 = s@;
        if let Some(n) = self.busy_timeout_ms {
            s.append(" PRAGMA busy_timeout=");
            s.append(decimal_text(n).as_str());
            s.append(";");
        }
        let ghost s1 = s@;
        proof {
            assert(s1 =~= s0 + setting_text(" PRAGMA busy_timeout="@, self.busy_timeout_ms));
        }
        if let Some(n) = self.cache_size_kib {
            s.append(" PRAGMA cache_size=-");
            s.append(decimal_text(n).as_str());
            s.append(";");
        }
        let ghost s2 = s@;
        proof {
            assert(s2 =~= s1 + setting_text(" PRAGMA cache_size=-"@, self.cache_size_kib));
        }
        if self.temp_store_memory {
            s.append(" PRAGMA temp_store=MEMORY;");
        }
        let ghost s3 = s@;
        if let Some(n) = self.wal_autocheckpoint_pages {
            s.append(" PRAGMA wal_autocheckpoint=");
            s.append(decimal_text(n).as_str());
            s.append(";");
        }
        let ghost s4 = s@;
        proof {
            assert(s4 =~= s3 + setting_text(
                " PRAGMA wal_autocheckpoint="@,
                self.wal_autocheckpoint_pages,
            ));
        }
        if self.foreign_keys {
            s.append(" PRAGMA foreign_keys=ON;");
        }
        proof {
            assert(s@ =~= pragma_script_of(*self));
        }
        s
    }
}

} // verus!
