//! The append-only audit trail and the marker rule that decides which of its
//! entries are still waiting to be synchronised.

use vstd::prelude::*;
use vstd::string::*;

verus! {

/// One observed data mutation. Timestamps are seconds on the local clock;
/// `0` is the epoch.
#[derive(Clone, Debug)]
pub struct AuditEntry {
    pub id: i64,
    pub entity_id: i64,
    pub field: String,
    pub old_value: Option<String>,
    pub new_value: Option<String>,
    pub actor_id: Option<i64>,
    pub action: String,
    pub timestamp: i64,
}

/// A sync marker is an entry whose action is `"sync"`.
pub open spec fn is_marker(e: AuditEntry) -> bool {
    e.action@ == "sync"@
}

/// The timestamp of the latest sync marker in `s`, if there is one.
pub open spec fn latest_marker(s: Seq<AuditEntry>) -> Option<i64>
    decreases s.len(),
{
    if s.len() == 0 {
        None
    } else {
        let prev = latest_marker(s.drop_last());
        let e = s.last();
        if is_marker(e) {
            match prev {
                Some(t) => if t >= e.timestamp {
                    Some(t)
                } else {
                    Some(e.timestamp)
                },
                None => Some(e.timestamp),
            }
        } else {
            prev
        }
    }
}

/// The sync boundary: the latest marker's timestamp, or the epoch.
pub open spec fn sync_floor(s: Seq<AuditEntry>) -> i64 {
    match latest_marker(s) {
        Some(t) => t,
        None => 0,
    }
}

/// The number of entries of `s` dated strictly after `floor`.
pub open spec fn count_after(s: Seq<AuditEntry>, floor: i64) -> nat
    decreases s.len(),
{
    if s.len() == 0 {
        0
    } else {
        count_after(s.drop_last(), floor) + if s.last().timestamp > floor {
            1nat
        } else {
            0nat
        }
    }
}

/// The number of entries waiting to be synchronised.
pub open spec fn pending_count(s: Seq<AuditEntry>) -> nat {
    count_after(s, sync_floor(s))
}

/// The number of sync markers in `s`.
pub open spec fn marker_count(s: Seq<AuditEntry>) -> nat
    decreases s.len(),
{
    if s.len() == 0 {
        0
    } else {
        marker_count(s.drop_last()) + if is_marker(s.last()) {
            1nat
        } else {
            0nat
        }
    }
}

/// No entry of `s` is dated after `t`.
pub open spec fn all_at_or_before(s: Seq<AuditEntry>, t: i64) -> bool {
    forall|i: int| 0 <= i < s.len() ==> #[trigger] s[i].timestamp <= t
}

pub proof fn lemma_count_after_bounded(s: Seq<AuditEntry>, floor: i64)
    ensures
        count_after(s, floor) <= s.len(),
    decreases s.len(),
{
    if s.len() > 0 {
        lemma_count_after_bounded(s.drop_last(), floor);
    }
}

proof fn lemma_none_after(s: Seq<AuditEntry>, t: i64)
    requires
        all_at_or_before(s, t),
    ensures
        count_after(s, t) == 0,
    decreases s.len(),
{
    if s.len() > 0 {
        let p = s.drop_last();
        assert(all_at_or_before(p, t)) by {
            assert forall|i: int| 0 <= i < p.len() implies #[trigger] p[i].timestamp <= t by {
                assert(p[i] == s[i]);
            }
        }
        lemma_none_after(p, t);
        assert(s.last() == s[s.len() - 1]);
    }
}

/// A marker dated no earlier than every entry of the log leaves nothing
/// pending once appended, and adds exactly one marker.
pub proof fn lemma_marker_clears(s: Seq<AuditEntry>, m: AuditEntry)
    requires
        is_marker(m),
        all_at_or_before(s, m.timestamp),
    ensures
        sync_floor(s.push(m)) == m.timestamp,
        pending_count(s.push(m)) == 0,
        marker_count(s.push(m)) == marker_count(s) + 1,
        s.push(m).len() == s.len() + 1,
{
    let t = s.push(m);
    assert(t.drop_last() =~= s);
    lemma_latest_marker_bounded(s, m.timestamp);
    assert(all_at_or_before(t, m.timestamp)) by {
        assert forall|i: int| 0 <= i < t.len() implies #[trigger] t[i].timestamp <= m.timestamp by {
            if i < s.len() {
                assert(t[i] == s[i]);
            }
        }
    }
    lemma_none_after(t, m.timestamp);
}

proof fn lemma_latest_marker_bounded(s: Seq<AuditEntry>, t: i64)
    requires
        all_at_or_before(s, t),
    ensures
        latest_marker(s) matches Some(x) ==> x <= t,
    decreases s.len(),
{
    if s.len() > 0 {
        let p = s.drop_last();
        assert(all_at_or_before(p, t)) by {
            assert forall|i: int| 0 <= i < p.len() implies #[trigger] p[i].timestamp <= t by {
                assert(p[i] == s[i]);
            }
        }
        lemma_latest_marker_bounded(p, t);
        assert(s.last() == s[s.len() - 1]);
    }
}

/// The audit table: entries in insertion order, never updated or removed.
/// The table numbers its entries itself, 1, 2, 3, ... in insertion order.
pub struct AuditLog {
    entries: Vec<AuditEntry>,
}

impl AuditLog {
    pub closed spec fn view(&self) -> Seq<AuditEntry> {
        self.entries@
    }

    /// Entry ids are increasing: the entry at position `i` has id `i + 1`.
    pub open spec fn wf(&self) -> bool {
        forall|i: int| 0 <= i < self@.len() ==> #[trigger] self@[i].id == i + 1
    }

    pub fn new() -> (r: Self)
        ensures
            r@ == Seq::<AuditEntry>::empty(),
            r.wf(),
    {
        AuditLog { entries: Vec::new() }
    }

    pub fn len(&self) -> (r: usize)
        ensures
            r == self@.len(),
    {
        self.entries.len()
    }

    pub fn entries(&self) -> (r: &Vec<AuditEntry>)
        ensures
            r@ == self@,
    {
        &self.entries
    }

    /// Appends `entry` at the end under the next id, and returns that id;
    /// whatever id `entry` carried is replaced.
    pub fn append(&mut self, entry: AuditEntry) -> (id: i64)
        requires
            old(self).wf(),
            old(self)@.len() < i64::MAX,
        ensures
            final(self).wf(),
            id == old(self)@.len() + 1,
            final(self)@ == old(self)@.push(AuditEntry { id, ..entry }),
    {
        let id = self.entries.len() as i64 + 1;
        let mut e = entry;
        e.id = id;
        self.entries.push(e);
        proof {
            assert forall|i: int| 0 <= i < self@.len() implies #[trigger] self@[i].id == i + 1 by {
                if i < old(self)@.len() {
                    assert(self@[i] == old(self)@[i]);
                }
            }
        }
        id
    }

    /// Appends a sync marker dated `timestamp` under the next id: entity `0`,
    /// field and action `"sync"`, no values and no actor. Returns its id.
    pub fn append_marker(&mut self, timestamp: i64) -> (id: i64)
        requires
            old(self).wf(),
            old(self)@.len() < i64::MAX,
        ensures
            final(self).wf(),
            id == old(self)@.len() + 1,
            final(self)@.len() == old(self)@.len() + 1,
            final(self)@.drop_last() == old(self)@,
            is_marker(final(self)@.last()),
            final(self)@.last().id == id,
            final(self)@.last().entity_id == 0,
            final(self)@.last().timestamp == timestamp,
    {
        let id = self.entries.len() as i64 + 1;
        let m = sync_marker(id, timestamp);
        self.entries.push(m);
        proof {
            assert(self@.drop_last() =~= old(self)@);
            assert forall|i: int| 0 <= i < self@.len() implies #[trigger] self@[i].id == i + 1 by {
                if i < old(self)@.len() {
                    assert(self@[i] == old(self)@[i]);
                }
            }
        }
        id
    }

    /// The sync boundary: the timestamp of the latest marker, or the epoch.
    pub fn sync_boundary(&self) -> (r: i64)
        ensures
            r == sync_floor(self@),
    {
        let tag = String::from_str("sync");
        proof {
            reveal_strlit("sync");
        }
        let mut latest: Option<i64> = None;
        let mut i: usize = 0;
        while i < self.entries.len()
            invariant
                i <= self.entries@.len(),
                tag@ == "sync"@,
                latest == latest_marker(self.entries@.subrange(0, i as int)),
            decreases self.entries@.len() - i,
        {
            let e = &self.entries[i];
            proof {
                let s = self.entries@.subrange(0, i as int + 1);
                assert(s.drop_last() =~= self.entries@.subrange(0, i as int));
                assert(s.last() == self.entries@[i as int]);
            }
            if e.action == tag {
                latest = match latest {
                    Some(t) => if t >= e.timestamp {
                        Some(t)
                    } else {
                        Some(e.timestamp)
                    },
                    None => Some(e.timestamp),
                };
            }
            i = i + 1;
        }
        proof {
            assert(self.entries@.subrange(0, self.entries@.len() as int) =~= self.entries@);
        }
        match latest {
            Some(t) => t,
            None => 0,
        }
    }

    /// The number of entries dated strictly after the sync boundary.
    pub fn pending_count(&self) -> (r: u64)
        ensures
            r == pending_count(self@),
    {
        let floor = self.sync_boundary();
        let mut n: u64 = 0;
        let mut i: usize = 0;
        while i < self.entries.len()
            invariant
                i <= self.entries@.len(),
                floor == sync_floor(self@),
                n == count_after(self.entries@.subrange(0, i as int), floor),
                n <= i,
            decreases self.entries@.len() - i,
        {
            proof {
                let s = self.entries@.subrange(0, i as int + 1);
                assert(s.drop_last() =~= self.entries@.subrange(0, i as int));
                assert(s.last() == self.entries@[i as int]);
            }
            if self.entries[i].timestamp > floor {
                n = n + 1;
            }
            i = i + 1;
        }
        proof {
            assert(self.entries@.subrange(0, self.entries@.len() as int) =~= self.entries@);
        }
        n
    }
}

/// The sync marker entry dated `timestamp`.
pub fn sync_marker(id: i64, timestamp: i64) -> (r: AuditEntry)
    ensures
        is_marker(r),
        r.id == id,
        r.entity_id == 0,
        r.field@ == "sync"@,
        r.old_value.is_none(),
        r.new_value.is_none(),
        r.actor_id.is_none(),
        r.timestamp == timestamp,
{
    AuditEntry {
        id,
        entity_id: 0,
        field: String::from_str("sync"),
        old_value: None,
        new_value: None,
        actor_id: None,
        action: String::from_str("sync"),
        timestamp,
    }
}

} // verus!
