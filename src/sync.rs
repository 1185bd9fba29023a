//! The synchronisation manager: pending-change status, and the transactional
//! sync pass that counts pending audit entries and writes a new sync marker.
//!
//! A pass is a state machine: it names the next database step to perform
//! ([`SyncStep`]), the caller performs it on its connection and reports how it
//! went, and the manager turns the finished pass into a [`SyncResult`].
//! Any failure after the transaction began leads to a rollback, so a pass
//! that did not commit never leaves a marker behind.

use vstd::prelude::*;
use crate::audit::{
    all_at_or_before, is_marker, lemma_count_after_bounded, lemma_marker_clears, marker_count,
    pending_count, sync_floor, AuditEntry, AuditLog,
};

verus! {

/// What the status query reports.
#[derive(Clone, Debug)]
pub struct SyncStatus {
    pub last_sync: Option<String>,
    pub pending_changes: bool,
    pub error: Option<String>,
}

/// What a sync pass reports.
#[derive(Clone, Debug)]
pub struct SyncResult {
    pub success: bool,
    pub error: Option<String>,
    pub changes_count: Option<i64>,
}

/// The database step a sync pass asks for next.
#[derive(Clone, Copy, Debug, PartialEq, Eq, Structural)]
pub enum SyncStep {
    /// Start a transaction that takes the write lock at once (an immediate
    /// transaction), so that no other pass can write its marker between this
    /// pass's scan and its own marker.
    BeginTransaction,
    /// Read the audit entries dated after the sync boundary, oldest first,
    /// and count them.
    ScanPending,
    /// Insert one sync marker dated now.
    InsertMarker,
    /// Commit the transaction.
    Commit,
    /// Roll the transaction back.
    Rollback,
    /// Nothing more: hand the pass to [`SyncManager::finish_sync`].
    Done,
}

/// One sync pass under way.
#[derive(Clone, Debug)]
pub struct SyncPass {
    pub step: SyncStep,
    pub changes_count: i64,
    pub committed: bool,
    pub error: Option<String>,
}

impl SyncPass {
    /// A pass is consistent: a committed one ended without error, and one
    /// that stopped without committing holds the error that stopped it.
    pub open spec fn wf(&self) -> bool {
        &&& self.committed ==> (self.step == SyncStep::Done && self.error.is_none())
        &&& (self.step == SyncStep::Rollback || (self.step == SyncStep::Done
            && !self.committed)) ==> self.error.is_some()
        &&& (self.step != SyncStep::Rollback && self.step != SyncStep::Done) ==> self.error.is_none()
    }

    /// The pass after the step under way succeeded (any step but the scan).
    pub open spec fn after_success(self) -> SyncPass {
        match self.step {
            SyncStep::BeginTransaction => SyncPass { step: SyncStep::ScanPending, ..self },
            SyncStep::InsertMarker => SyncPass { step: SyncStep::Commit, ..self },
            SyncStep::Commit => SyncPass { step: SyncStep::Done, committed: true, ..self },
            _ => SyncPass { step: SyncStep::Done, ..self },
        }
    }

    /// The pass after the scan read `rows` entries.
    pub open spec fn after_scan(self, rows: i64) -> SyncPass {
        SyncPass { step: SyncStep::InsertMarker, changes_count: rows, ..self }
    }

    /// The pass after the step under way failed with `message`: before the
    /// transaction began there is nothing to undo; inside it, roll back; a
    /// failed rollback ends the pass with the first error.
    pub open spec fn after_failure(self, message: String) -> SyncPass {
        match self.step {
            SyncStep::BeginTransaction => SyncPass {
                step: SyncStep::Done,
                error: Some(message),
                ..self
            },
            SyncStep::Rollback => SyncPass { step: SyncStep::Done, ..self },
            _ => SyncPass { step: SyncStep::Rollback, error: Some(message), ..self },
        }
    }

    /// The step to perform next.
    pub fn next_step(&self) -> (r: SyncStep)
        ensures
            r == self.step,
    {
        self.step
    }

    pub fn is_done(&self) -> (r: bool)
        ensures
            r == (self.step == SyncStep::Done),
    {
        matches!(self.step, SyncStep::Done)
    }

    /// Records that the step under way, which is not the scan, succeeded.
    pub fn record_success(&mut self)
        requires
            old(self).wf(),
            old(self).step != SyncStep::ScanPending,
            old(self).step != SyncStep::Done,
        ensures
            *final(self) == old(self).after_success(),
            final(self).wf(),
    {
        match self.step {
            SyncStep::BeginTransaction => {
                self.step = SyncStep::ScanPending;
            },
            SyncStep::InsertMarker => {
                self.step = SyncStep::Commit;
            },
            SyncStep::Commit => {
                self.step = SyncStep::Done;
                self.committed = true;
            },
            _ => {
                self.step = SyncStep::Done;
            },
        }
    }

    /// Records that the scan succeeded and read `rows` entries.
    pub fn record_scan(&mut self, rows: i64)
        requires
            old(self).wf(),
            old(self).step == SyncStep::ScanPending,
        ensures
            *final(self) == old(self).after_scan(rows),
            final(self).wf(),
    {
        self.step = SyncStep::InsertMarker;
        self.changes_count = rows;
    }

    /// Records that the step under way failed with `message`.
    pub fn record_failure(&mut self, message: String)
        requires
            old(self).wf(),
            old(self).step != SyncStep::Done,
        ensures
            *final(self) == old(self).after_failure(message),
            final(self).wf(),
    {
        match self.step {
            SyncStep::BeginTransaction => {
                self.step = SyncStep::Done;
                self.error = Some(message);
            },
            SyncStep::Rollback => {
                self.step = SyncStep::Done;
            },
            _ => {
                self.step = SyncStep::Rollback;
                self.error = Some(message);
            },
        }
    }
}

/// A fresh pass, about to begin its transaction.
pub open spec fn initial_pass() -> SyncPass {
    SyncPass { step: SyncStep::BeginTransaction, changes_count: 0, committed: false, error: None }
}

/// The report of a finished pass.
pub open spec fn result_of(pass: SyncPass) -> SyncResult {
    if pass.committed {
        SyncResult { success: true, error: None, changes_count: Some(pass.changes_count) }
    } else {
        SyncResult { success: false, error: pass.error, changes_count: None }
    }
}

/// The status reported for a last-sync time and a number of pending entries.
pub open spec fn status_of(last_sync: Option<String>, pending: int) -> SyncStatus {
    SyncStatus { last_sync, pending_changes: pending > 0, error: None }
}

/// Relies on `chrono::Local::now` and `DateTime::to_rfc3339`: the current
/// local time as RFC 3339 text. Nothing is claimed of its value.
#[verifier::external_body]
fn local_now_rfc3339() -> (r: String) {
    chrono::Local::now().to_rfc3339()
}

/// Process-local synchronisation state: the time of the last successful
/// pass, if any. It is not persisted, nor rebuilt from the marker rows when
/// the process starts; the durable boundary is the latest marker row.
pub struct SyncManager {
    last_sync: Option<String>,
}

impl SyncManager {
    pub closed spec fn last_sync_spec(&self) -> Option<String> {
        self.last_sync
    }

    /// A manager that has not synchronised yet.
    pub fn new() -> (r: Self)
        ensures
            r.last_sync_spec().is_none(),
    {
        SyncManager { last_sync: None }
    }

    /// The time of the last successful pass, if any.
    pub fn last_sync(&self) -> (r: Option<String>)
        ensures
            r == self.last_sync_spec(),
    {
        self.last_sync.clone()
    }

    /// The status for `pending` entries past the sync boundary, as the count
    /// query returned it. Changes nothing.
    pub fn get_sync_status(&self, pending: i64) -> (r: SyncStatus)
        ensures
            r == status_of(self.last_sync_spec(), pending as int),
    {
        SyncStatus { last_sync: self.last_sync.clone(), pending_changes: pending > 0, error: None }
    }

    /// The status of an audit log held in memory.
    pub fn status_of_log(&self, log: &AuditLog) -> (r: SyncStatus)
        ensures
            r == status_of(self.last_sync_spec(), pending_count(log@) as int),
    {
        let n = log.pending_count();
        proof {
            lemma_count_after_bounded(log@, sync_floor(log@));
        }
        SyncStatus { last_sync: self.last_sync.clone(), pending_changes: n > 0, error: None }
    }

    /// Starts a sync pass.
    pub fn begin_sync(&self) -> (r: SyncPass)
        ensures
            r == initial_pass(),
            r.wf(),
    {
        SyncPass { step: SyncStep::BeginTransaction, changes_count: 0, committed: false, error: None }
    }

    /// Turns a finished pass into its report. Only a committed pass moves the
    /// last-sync time, to now.
    pub fn finish_sync(&mut self, pass: SyncPass) -> (r: SyncResult)
        requires
            pass.wf(),
            pass.step == SyncStep::Done,
        ensures
            r == result_of(pass),
            pass.committed ==> final(self).last_sync_spec().is_some(),
            !pass.committed ==> final(self).last_sync_spec() == old(self).last_sync_spec(),
            !pass.committed ==> r.error.is_some(),
    {
        if pass.committed {
            self.last_sync = Some(local_now_rfc3339());
            SyncResult { success: true, error: None, changes_count: Some(pass.changes_count) }
        } else {
            SyncResult { success: false, error: pass.error, changes_count: None }
        }
    }
}

/// A pass in which every step succeeds and the scan reads `rows` entries goes
/// through begin, scan, one marker insert and commit, and reports success
/// with `rows` changes. With the audit log model: the scan of a log reads
/// its pending entries, and the committed marker is the one new marker row.
pub proof fn law_sync_success(log: Seq<AuditEntry>, marker: AuditEntry)
    requires
        is_marker(marker),
        all_at_or_before(log, marker.timestamp),
        pending_count(log) <= i64::MAX,
    ensures
        ({
            let rows = pending_count(log) as i64;
            let begun = initial_pass().after_success();
            let scanned = begun.after_scan(rows);
            let marked = scanned.after_success();
            let committed = marked.after_success();
            &&& begun.step == SyncStep::ScanPending
            &&& scanned.step == SyncStep::InsertMarker
            &&& marked.step == SyncStep::Commit
            &&& committed.step == SyncStep::Done
            &&& result_of(committed) == (SyncResult {
                success: true,
                error: None,
                changes_count: Some(rows),
            })
            &&& marker_count(log.push(marker)) == marker_count(log) + 1
            &&& log.push(marker).len() == log.len() + 1
        }),
{
    lemma_marker_clears(log, marker);
}

/// Right after a committed pass has written its marker, dated no earlier
/// than any entry, the status reports nothing pending, and a second pass
/// with no write in between scans zero entries.
pub proof fn law_nothing_pending_after_sync(
    log: Seq<AuditEntry>,
    marker: AuditEntry,
    last_sync: Option<String>,
)
    requires
        is_marker(marker),
        all_at_or_before(log, marker.timestamp),
    ensures
        !status_of(last_sync, pending_count(log.push(marker)) as int).pending_changes,
        pending_count(log.push(marker)) == 0,
{
    lemma_marker_clears(log, marker);
}

/// Two passes in a row with no write in between: the second, run on the log
/// that the first left behind, succeeds with zero changes.
pub proof fn law_second_sync_counts_zero(log: Seq<AuditEntry>, marker: AuditEntry)
    requires
        is_marker(marker),
        all_at_or_before(log, marker.timestamp),
    ensures
        ({
            let rows = pending_count(log.push(marker)) as i64;
            let second = initial_pass().after_success().after_scan(rows).after_success().after_success();
            &&& rows == 0
            &&& result_of(second) == (SyncResult {
                success: true,
                error: None,
                changes_count: Some(0i64),
            })
        }),
{
    lemma_marker_clears(log, marker);
}

/// An empty audit table has nothing pending.
pub proof fn law_empty_log_not_pending(last_sync: Option<String>)
    ensures
        pending_count(Seq::<AuditEntry>::empty()) == 0,
        !status_of(last_sync, pending_count(Seq::<AuditEntry>::empty()) as int).pending_changes,
{
}

/// If any step from the marker insert on fails, the pass rolls back, never
/// reports itself committed, and reports no change count, whatever the
/// rollback then does.
pub proof fn law_failed_commit_not_applied(rows: i64, message: String, rollback_ok: bool, again: String)
    ensures
        ({
            let marked = initial_pass().after_success().after_scan(rows).after_success();
            let failed = marked.after_failure(message);
            let ended = if rollback_ok {
                failed.after_success()
            } else {
                failed.after_failure(again)
            };
            &&& marked.step == SyncStep::Commit
            &&& failed.step == SyncStep::Rollback
            &&& !failed.committed
            &&& ended.step == SyncStep::Done
            &&& !ended.committed
            &&& result_of(ended) == (SyncResult {
                success: false,
                error: Some(message),
                changes_count: None,
            })
        }),
{
}

} // verus!
