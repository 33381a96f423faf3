//! Committing an append, once.
//!
//! A planned append may be run more than once, as when a distributed engine retries a failed
//! job. Each run writes new data files, so the files do not tell whether an earlier run went
//! through. The plan therefore carries an id, which the commit records in the snapshot that it
//! makes; a run that finds its id among the snapshots made since it was planned reports what
//! that commit wrote, and commits nothing.

use std::sync::Arc;

use datafusion::arrow::datatypes::Schema as ArrowSchema;
use iceberg::table::Table;
use vstd::prelude::*;

use crate::outside::current_snapshot_id;

verus! {

/// A snapshot of a table, as far as a commit looks at it.
#[derive(Debug)]
pub struct CommittedSnapshot {
    /// The id of the snapshot.
    pub snapshot_id: i64,
    /// The id of the planned append that made it, if one did.
    pub commit_id: Option<String>,
    /// How many rows it added.
    pub added_rows: u64,
}

/// What a commit looks at of a snapshot.
pub struct CommittedSnapshotView {
    /// The id of the snapshot.
    pub snapshot_id: i64,
    /// The id of the planned append that made it, if one did.
    pub commit_id: Option<Seq<char>>,
    /// How many rows it added.
    pub added_rows: u64,
}

impl View for CommittedSnapshot {
    type V = CommittedSnapshotView;

    open spec fn view(&self) -> CommittedSnapshotView {
        CommittedSnapshotView {
            snapshot_id: self.snapshot_id,
            commit_id: match self.commit_id {
                Some(id) => Some(id@),
                None => None,
            },
            added_rows: self.added_rows,
        }
    }
}

/// What a lineage of snapshots holds.
pub open spec fn lineage_view(lineage: Seq<CommittedSnapshot>) -> Seq<CommittedSnapshotView> {
    Seq::new(lineage.len(), |i: int| lineage[i]@)
}

/// What a run of a planned append does with the rows that it wrote.
#[derive(Clone, Copy, Debug, PartialEq, Eq, Structural)]
pub enum CommitDecision {
    /// It commits them.
    Append,
    /// It drops them and reports this many rows: an earlier run has committed.
    AlreadyCommitted(u64),
}

/// Whether the snapshot at position `i` of a lineage, newest first, was made after the snapshot
/// `base`, which the table had when the append was planned.
pub open spec fn made_since(
    lineage: Seq<CommittedSnapshotView>,
    base: Option<i64>,
    i: int,
) -> bool {
    forall|j: int| 0 <= j <= i ==> base != Some((#[trigger] lineage[j]).snapshot_id)
}

/// Whether the snapshot at position `i` of a lineage, newest first, is the commit of the append
/// `commit_id` that was planned on the snapshot `base`.
pub open spec fn is_commit(
    lineage: Seq<CommittedSnapshotView>,
    base: Option<i64>,
    commit_id: Seq<char>,
    i: int,
) -> bool {
    &&& 0 <= i < lineage.len()
    &&& lineage[i].commit_id == Some(commit_id)
    &&& made_since(lineage, base, i)
}

/// Whether `decision` is right for the append `commit_id` that was planned on the snapshot
/// `base`, on a table whose snapshots, newest first, are `lineage`: to append where none of them
/// is its commit, and else to report what its newest commit added.
pub open spec fn decides(
    lineage: Seq<CommittedSnapshotView>,
    base: Option<i64>,
    commit_id: Seq<char>,
    decision: CommitDecision,
) -> bool {
    match decision {
        CommitDecision::Append => forall|i: int| !is_commit(lineage, base, commit_id, i),
        CommitDecision::AlreadyCommitted(rows) => exists|i: int|
            {
                &&& #[trigger] is_commit(lineage, base, commit_id, i)
                &&& rows == lineage[i].added_rows
                &&& forall|j: int| 0 <= j < i ==> !is_commit(lineage, base, commit_id, j)
            },
    }
}

/// What the commit of a planned append is made of.
pub struct CommitView<C: ?Sized, P> {
    /// The table that is appended to, as loaded when the append was planned.
    pub table: Arc<Table>,
    /// The catalog to commit through.
    pub catalog: Arc<C>,
    /// The plan that yields the data files.
    pub input: P,
    /// The schema of the provider that planned the append.
    pub schema: Arc<ArrowSchema>,
    /// The id of the append.
    pub commit_id: Seq<char>,
}

/// The commit at the end of a planned append.
#[derive(Debug)]
pub struct IcebergCommitExec<C: ?Sized, P> {
    table: Arc<Table>,
    catalog: Arc<C>,
    input: P,
    schema: Arc<ArrowSchema>,
    commit_id: String,
}

impl<C: ?Sized, P> View for IcebergCommitExec<C, P> {
    type V = CommitView<C, P>;

    closed spec fn view(&self) -> CommitView<C, P> {
        CommitView {
            table: self.table,
            catalog: self.catalog,
            input: self.input,
            schema: self.schema,
            commit_id: self.commit_id@,
        }
    }
}

impl<C: ?Sized, P> IcebergCommitExec<C, P> {
    /// The commit of the data files that `input` yields. `commit_id` is to be an id that no
    /// other append has.
    pub fn new(
        table: Arc<Table>,
        catalog: Arc<C>,
        input: P,
        schema: Arc<ArrowSchema>,
        commit_id: String,
    ) -> (commit: Self)
        ensures
            commit@ == (CommitView { table, catalog, input, schema, commit_id: commit_id@ }),
    {
        IcebergCommitExec { table, catalog, input, schema, commit_id }
    }

    /// The same commit with another input.
    ///
    /// It goes to the same catalog under the same id, so a rewritten plan still commits where it
    /// was planned to, and only once.
    pub fn replace_input(&self, input: P) -> (commit: Self)
        ensures
            commit@ == (CommitView { input, ..self@ }),
    {
        IcebergCommitExec {
            table: self.table.clone(),
            catalog: self.catalog.clone(),
            input,
            schema: self.schema.clone(),
            commit_id: self.commit_id.clone(),
        }
    }

    /// The catalog to commit through.
    pub fn catalog(&self) -> (catalog: &Arc<C>)
        ensures
            *catalog == self@.catalog,
    {
        &self.catalog
    }

    /// The table that is appended to, as loaded when the append was planned.
    pub fn table(&self) -> (table: &Table)
        ensures
            *table == *self@.table,
    {
        &self.table
    }

    /// The plan that yields the data files.
    pub fn input(&self) -> (input: &P)
        ensures
            *input == self@.input,
    {
        &self.input
    }

    /// The schema of the provider that planned the append.
    pub fn schema(&self) -> (schema: Arc<ArrowSchema>)
        ensures
            schema == self@.schema,
    {
        self.schema.clone()
    }

    /// The id of the append.
    pub fn commit_id(&self) -> (id: &str)
        ensures
            id@ == self@.commit_id,
    {
        self.commit_id.as_str()
    }

    /// Decides what a run does, given the snapshots of the table as it is now, from its current
    /// one back through their parents.
    pub fn decide(&self, lineage: &Vec<CommittedSnapshot>) -> (decision: CommitDecision)
        ensures
            decides(
                lineage_view(lineage@),
                crate::outside::table_contents(*self@.table).current_snapshot_id,
                self@.commit_id,
                decision,
            ),
    {
        let base = current_snapshot_id(&self.table);
        let ghost snapshots = lineage_view(lineage@);
        let mut i: usize = 0;
        while i < lineage.len()
            invariant
                i <= lineage@.len(),
                snapshots == lineage_view(lineage@),
                base == crate::outside::table_contents(*self@.table).current_snapshot_id,
                made_since(snapshots, base, i - 1),
                forall|j: int| 0 <= j < i ==> !is_commit(snapshots, base, self@.commit_id, j),
            decreases lineage@.len() - i,
        {
            let snapshot = &lineage[i];
            assert(snapshots[i as int] == snapshot@);
            if let Some(id) = base {
                if snapshot.snapshot_id == id {
                    assert forall|j: int| !is_commit(snapshots, base, self@.commit_id, j) by {
                        if i <= j && made_since(snapshots, base, j) {
                            assert(base != Some(snapshots[i as int].snapshot_id));
                        }
                    }
                    return CommitDecision::Append;
                }
            }
            if let Some(id) = &snapshot.commit_id {
                if *id == self.commit_id {
                    assert(is_commit(snapshots, base, self@.commit_id, i as int));
                    return CommitDecision::AlreadyCommitted(snapshot.added_rows);
                }
            }
            i = i + 1;
        }
        CommitDecision::Append
    }
}

} // verus!
