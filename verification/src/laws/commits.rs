//! What holds of the commit of a planned append, and of running it again.

use std::sync::Arc;

use datafusion::arrow::datatypes::Schema as ArrowSchema;
use iceberg::table::Table;
use vstd::prelude::*;

use crate::commit::{CommitDecision, CommittedSnapshot, IcebergCommitExec};

verus! {

/// Whether a planned append recorded this id in the snapshot.
pub open spec fn carries(snapshot: CommittedSnapshot, id: Seq<char>) -> bool {
    snapshot.commit_id matches Some(recorded) && recorded@ == id
}

/// The snapshot that the table had when the append was planned.
spec fn planned_on<C: ?Sized, P>(commit: IcebergCommitExec<C, P>) -> Option<i64> {
    crate::outside::table_contents(*commit@.table).current_snapshot_id
}

/// A commit keeps what it is made of.
pub proof fn a_commit_keeps_its_parts<C: ?Sized, P>(
    given_table: Arc<Table>,
    given_catalog: Arc<C>,
    given_input: P,
    given_schema: Arc<ArrowSchema>,
    given_id: String,
    commit: IcebergCommitExec<C, P>,
    table: &Table,
    catalog: &Arc<C>,
    input: &P,
    schema: Arc<ArrowSchema>,
    id: &str,
)
    requires
        call_ensures(
            IcebergCommitExec::<C, P>::new,
            (given_table, given_catalog, given_input, given_schema, given_id),
            commit,
        ),
        call_ensures(IcebergCommitExec::<C, P>::table, (&commit,), table),
        call_ensures(IcebergCommitExec::<C, P>::catalog, (&commit,), catalog),
        call_ensures(IcebergCommitExec::<C, P>::input, (&commit,), input),
        call_ensures(IcebergCommitExec::<C, P>::schema, (&commit,), schema),
        call_ensures(IcebergCommitExec::<C, P>::commit_id, (&commit,), id),
    ensures
        *table == *given_table,
        *catalog == given_catalog,
        *input == given_input,
        schema == given_schema,
        id@ == given_id@,
{
}

/// A commit with another input goes to the same table through the same catalog, under the same
/// id and with the same schema.
pub proof fn replacing_the_input_keeps_the_rest<C: ?Sized, P>(
    commit: IcebergCommitExec<C, P>,
    other_input: P,
    replaced: IcebergCommitExec<C, P>,
    table: &Table,
    catalog: &Arc<C>,
    schema: Arc<ArrowSchema>,
    id: &str,
    new_table: &Table,
    new_catalog: &Arc<C>,
    new_input: &P,
    new_schema: Arc<ArrowSchema>,
    new_id: &str,
)
    requires
        call_ensures(IcebergCommitExec::<C, P>::replace_input, (&commit, other_input), replaced),
        call_ensures(IcebergCommitExec::<C, P>::table, (&commit,), table),
        call_ensures(IcebergCommitExec::<C, P>::catalog, (&commit,), catalog),
        call_ensures(IcebergCommitExec::<C, P>::schema, (&commit,), schema),
        call_ensures(IcebergCommitExec::<C, P>::commit_id, (&commit,), id),
        call_ensures(IcebergCommitExec::<C, P>::table, (&replaced,), new_table),
        call_ensures(IcebergCommitExec::<C, P>::catalog, (&replaced,), new_catalog),
        call_ensures(IcebergCommitExec::<C, P>::input, (&replaced,), new_input),
        call_ensures(IcebergCommitExec::<C, P>::schema, (&replaced,), new_schema),
        call_ensures(IcebergCommitExec::<C, P>::commit_id, (&replaced,), new_id),
    ensures
        *new_table == *table,
        *new_catalog == *catalog,
        *new_input == other_input,
        new_schema == schema,
        new_id@ == id@,
{
}

/// A run that finds its id in a snapshot made since the append was planned commits nothing, and
/// reports the rows of the newest such snapshot, wherever in the lineage it is.
///
/// `i` is its position in the lineage, newest first. The snapshot that the table had when the
/// append was planned is not among those up to it.
pub proof fn a_rerun_finds_its_commit<C: ?Sized, P>(
    commit: IcebergCommitExec<C, P>,
    table: &Table,
    id: &str,
    lineage: Vec<CommittedSnapshot>,
    i: int,
    decision: CommitDecision,
)
    requires
        call_ensures(IcebergCommitExec::<C, P>::table, (&commit,), table),
        call_ensures(IcebergCommitExec::<C, P>::commit_id, (&commit,), id),
        call_ensures(IcebergCommitExec::<C, P>::decide, (&commit, &lineage), decision),
        0 <= i < lineage@.len(),
        carries(lineage@[i], id@),
        forall|j: int| 0 <= j < i ==> !carries(#[trigger] lineage@[j], id@),
        forall|j: int|
            0 <= j <= i ==> crate::outside::table_contents(*table).current_snapshot_id != Some(
                (#[trigger] lineage@[j]).snapshot_id,
            ),
    ensures
        decision == CommitDecision::AlreadyCommitted(lineage@[i].added_rows),
{
    let snapshots = crate::commit::lineage_view(lineage@);
    let base = planned_on(commit);
    assert(snapshots.len() == lineage@.len());
    assert forall|j: int| 0 <= j < snapshots.len() implies #[trigger] snapshots[j]
        == lineage@[j]@ by {}
    assert(crate::commit::is_commit(snapshots, base, commit@.commit_id, i));
    assert forall|j: int| 0 <= j < i implies !crate::commit::is_commit(
        snapshots,
        base,
        commit@.commit_id,
        j,
    ) by {
        assert(!carries(lineage@[j], id@));
    }
}

/// A run commits its rows where each snapshot that carries its id is the one that the append was
/// planned on, or older than that.
pub proof fn a_first_run_commits<C: ?Sized, P>(
    commit: IcebergCommitExec<C, P>,
    table: &Table,
    id: &str,
    lineage: Vec<CommittedSnapshot>,
    decision: CommitDecision,
)
    requires
        call_ensures(IcebergCommitExec::<C, P>::table, (&commit,), table),
        call_ensures(IcebergCommitExec::<C, P>::commit_id, (&commit,), id),
        call_ensures(IcebergCommitExec::<C, P>::decide, (&commit, &lineage), decision),
        forall|i: int|
            0 <= i < lineage@.len() && carries(#[trigger] lineage@[i], id@) ==> exists|j: int|
                0 <= j <= i && crate::outside::table_contents(*table).current_snapshot_id == Some(
                    (#[trigger] lineage@[j]).snapshot_id,
                ),
    ensures
        decision is Append,
{
    let snapshots = crate::commit::lineage_view(lineage@);
    let base = planned_on(commit);
    if decision is AlreadyCommitted {
        let i = choose|i: int| #[trigger]
            crate::commit::is_commit(snapshots, base, commit@.commit_id, i);
        assert(snapshots[i] == lineage@[i]@);
        assert(carries(lineage@[i], id@));
        let j = choose|j: int|
            0 <= j <= i && base == Some((#[trigger] lineage@[j]).snapshot_id);
        assert(snapshots[j] == lineage@[j]@);
    }
}

/// A run commits its rows where no snapshot carries its id: separately planned appends are
/// separate commits.
pub proof fn appends_with_other_ids_do_not_count<C: ?Sized, P>(
    commit: IcebergCommitExec<C, P>,
    id: &str,
    lineage: Vec<CommittedSnapshot>,
    decision: CommitDecision,
)
    requires
        call_ensures(IcebergCommitExec::<C, P>::commit_id, (&commit,), id),
        call_ensures(IcebergCommitExec::<C, P>::decide, (&commit, &lineage), decision),
        forall|i: int| 0 <= i < lineage@.len() ==> !carries(#[trigger] lineage@[i], id@),
    ensures
        decision is Append,
{
    let snapshots = crate::commit::lineage_view(lineage@);
    let base = planned_on(commit);
    if decision is AlreadyCommitted {
        let i = choose|i: int| #[trigger]
            crate::commit::is_commit(snapshots, base, commit@.commit_id, i);
        assert(snapshots[i] == lineage@[i]@);
        assert(carries(lineage@[i], id@));
    }
}

/// A planned append commits once, however often it is run: after a run that commits, a second
/// run, on the lineage that the first one and others after it made, commits nothing, and reports
/// what the first one committed.
///
/// `later` counts the snapshots that others made since the first run, and the first run's own
/// comes next.
pub proof fn two_runs_commit_once<C: ?Sized, P>(
    commit: IcebergCommitExec<C, P>,
    table: &Table,
    id: &str,
    before: Vec<CommittedSnapshot>,
    first: CommitDecision,
    after: Vec<CommittedSnapshot>,
    later: int,
    second: CommitDecision,
)
    requires
        call_ensures(IcebergCommitExec::<C, P>::table, (&commit,), table),
        call_ensures(IcebergCommitExec::<C, P>::commit_id, (&commit,), id),
        call_ensures(IcebergCommitExec::<C, P>::decide, (&commit, &before), first),
        first is Append,
        later >= 0,
        after@.len() == later + 1 + before@.len(),
        after@.skip(later + 1) == before@,
        carries(after@[later], id@),
        forall|j: int| 0 <= j < later ==> !carries(#[trigger] after@[j], id@),
        forall|j: int|
            0 <= j <= later ==> crate::outside::table_contents(*table).current_snapshot_id != Some(
                (#[trigger] after@[j]).snapshot_id,
            ),
        call_ensures(IcebergCommitExec::<C, P>::decide, (&commit, &after), second),
    ensures
        second == CommitDecision::AlreadyCommitted(after@[later].added_rows),
{
    a_rerun_finds_its_commit(commit, table, id, after, later, second);
}

/// What lies below the snapshot that the append was planned on makes no difference.
///
/// `i` is the position of that snapshot in both lineages, which agree up to it.
pub proof fn older_snapshots_do_not_count<C: ?Sized, P>(
    commit: IcebergCommitExec<C, P>,
    table: &Table,
    lineage: Vec<CommittedSnapshot>,
    other: Vec<CommittedSnapshot>,
    i: int,
    decision: CommitDecision,
    other_decision: CommitDecision,
)
    requires
        call_ensures(IcebergCommitExec::<C, P>::table, (&commit,), table),
        0 <= i < lineage@.len(),
        i < other@.len(),
        lineage@.take(i + 1) == other@.take(i + 1),
        crate::outside::table_contents(*table).current_snapshot_id == Some(
            lineage@[i].snapshot_id,
        ),
        call_ensures(IcebergCommitExec::<C, P>::decide, (&commit, &lineage), decision),
        call_ensures(IcebergCommitExec::<C, P>::decide, (&commit, &other), other_decision),
    ensures
        other_decision == decision,
{
    let base = planned_on(commit);
    let snapshots = crate::commit::lineage_view(lineage@);
    let others = crate::commit::lineage_view(other@);
    assert forall|j: int| 0 <= j <= i implies #[trigger] snapshots[j] == others[j] by {
        assert(lineage@.take(i + 1)[j] == lineage@[j]);
        assert(other@.take(i + 1)[j] == other@[j]);
    }
    assert(snapshots[i].snapshot_id == lineage@[i].snapshot_id);
    assert forall|j: int|
        #![trigger crate::commit::is_commit(snapshots, base, commit@.commit_id, j)]
        #![trigger crate::commit::is_commit(others, base, commit@.commit_id, j)]
        crate::commit::is_commit(snapshots, base, commit@.commit_id, j)
            == crate::commit::is_commit(others, base, commit@.commit_id, j) by {
        if 0 <= j {
            if j < i {
                assert(snapshots[j] == others[j]);
                assert(crate::commit::made_since(snapshots, base, j)
                    == crate::commit::made_since(others, base, j)) by {
                    assert(forall|k: int| 0 <= k <= j ==> snapshots[k] == others[k]);
                }
            } else {
                assert(base == Some(snapshots[i].snapshot_id));
                assert(base == Some(others[i].snapshot_id));
            }
        }
    }
    if let CommitDecision::AlreadyCommitted(rows) = decision {
        let a = choose|a: int|
            {
                &&& #[trigger] crate::commit::is_commit(snapshots, base, commit@.commit_id, a)
                &&& rows == snapshots[a].added_rows
                &&& forall|j: int|
                    0 <= j < a ==> !crate::commit::is_commit(
                        snapshots,
                        base,
                        commit@.commit_id,
                        j,
                    )
            };
        assert(crate::commit::is_commit(others, base, commit@.commit_id, a));
        assert(snapshots[a] == others[a]) by {
            assert(base == Some(snapshots[i].snapshot_id));
        }
    }
}

} // verus!
