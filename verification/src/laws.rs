//! What holds of the providers as a whole.
//!
//! The laws in this file are about what the providers are made of. Those in the modules below are
//! about calls: each takes the arguments and the results of some calls, and says how they are
//! bound to relate.

pub mod appends;
pub mod commits;
pub mod construction;
pub mod scans;
pub mod texts;
pub mod totality;

use std::sync::Arc;

use datafusion::arrow::datatypes::Schema as ArrowSchema;
use iceberg::table::Table;
use vstd::prelude::*;

use crate::commit::{CommitDecision, CommittedSnapshotView};
use crate::error::ProviderError;
use crate::insert::{
    InsertAction, InsertPlanningView, InsertProgress, InsertRequestView, InsertStage,
};
use crate::provider::TableProviderView;
use crate::scan::TableScanView;
use crate::static_provider::StaticTableProviderView;

verus! {

/// A provider that is rebuilt from the catalog, the identifier and the schema of another plans
/// the same scans and the same appends, whatever table the catalog gives it.
pub proof fn rebuilt_provider_plans_like_the_first<C: ?Sized, F, P>(
    first: TableProviderView<C>,
    rebuilt: TableProviderView<C>,
    table: Table,
    projection: Option<Seq<usize>>,
    filters: Seq<F>,
    limit: Option<usize>,
    scan: TableScanView<F>,
    target_partitions: usize,
    input: P,
)
    requires
        rebuilt == (TableProviderView {
            catalog: first.catalog,
            table_ident: first.table_ident,
            schema: first.schema,
        }),
    ensures
        rebuilt.offers(projection) == first.offers(projection),
        rebuilt.plans_scan(table, projection, filters, limit, scan) == first.plans_scan(
            table,
            projection,
            filters,
            limit,
            scan,
        ),
        rebuilt.append(target_partitions, input) == first.append(target_partitions, input),
{
}

/// A change of the table's schema does not show in what a provider plans: on any two states of
/// the table, a scan puts out the same columns, and selects them by the same names.
pub proof fn schema_changes_do_not_show<C: ?Sized, F>(
    provider: TableProviderView<C>,
    before: Table,
    after: Table,
    projection: Option<Seq<usize>>,
    filters: Seq<F>,
    limit: Option<usize>,
    scan_before: TableScanView<F>,
    scan_after: TableScanView<F>,
)
    requires
        provider.plans_scan(before, projection, filters, limit, scan_before),
        provider.plans_scan(after, projection, filters, limit, scan_after),
    ensures
        crate::outside::arrow_columns(scan_after.schema) == crate::outside::arrow_columns(
            scan_before.schema,
        ),
        scan_after.projection == scan_before.projection,
{
}

/// A catalog-backed provider scans the table as it was just loaded, at its current snapshot.
pub proof fn scans_see_the_latest_state<C: ?Sized, F>(
    provider: TableProviderView<C>,
    table: Table,
    projection: Option<Seq<usize>>,
    filters: Seq<F>,
    limit: Option<usize>,
    scan: TableScanView<F>,
)
    requires
        provider.plans_scan(table, projection, filters, limit, scan),
    ensures
        *scan.table == table,
        scan.snapshot_id is None,
{
}

/// A static provider scans the table that it was built from, at the snapshot that it was built
/// for, in every scan.
pub proof fn static_scans_see_one_state<F>(
    provider: StaticTableProviderView,
    projection: Option<Seq<usize>>,
    filters: Seq<F>,
    limit: Option<usize>,
    scan: TableScanView<F>,
)
    requires
        provider.plans_scan(projection, filters, limit, scan),
    ensures
        scan.table == provider.table,
        scan.snapshot_id == provider.snapshot_id,
{
}

/// The limit and the filters of a query reach the scan as they are.
pub proof fn limit_and_filters_are_pushed_down<F>(
    scan: TableScanView<F>,
    table: Arc<Table>,
    snapshot_id: Option<i64>,
    schema: ArrowSchema,
    projection: Option<Seq<usize>>,
    filters: Seq<F>,
    limit: Option<usize>,
)
    requires
        scan.reads(table, snapshot_id, schema, projection, filters, limit),
    ensures
        scan.limit == limit,
        scan.filters == filters,
{
}

/// The names that a scan selects columns by are those of the columns that it puts out.
pub proof fn scans_select_columns_by_name<F>(
    scan: TableScanView<F>,
    table: Arc<Table>,
    snapshot_id: Option<i64>,
    schema: ArrowSchema,
    projection: Option<Seq<usize>>,
    filters: Seq<F>,
    limit: Option<usize>,
)
    requires
        scan.reads(table, snapshot_id, schema, projection, filters, limit),
    ensures
        scan.projection is Some <==> projection is Some,
        scan.projection matches Some(names) ==> names == crate::scan::column_names(
            crate::outside::arrow_columns(scan.schema),
        ),
{
}

/// A catalog-backed provider and a static provider of the same state of a table offer the same
/// schema.
pub proof fn providers_agree_on_the_schema<C: ?Sized>(
    table: Table,
    provider: TableProviderView<C>,
    fixed: StaticTableProviderView,
)
    requires
        crate::schema::shows(
            *provider.schema,
            crate::outside::table_contents(table).current_schema(),
        ),
        fixed.well_formed(),
        *fixed.table == table,
        fixed.snapshot_id is None,
    ensures
        fixed.schema == provider.schema,
{
}

/// Traveling to a snapshot that was written with the current schema, or that names no schema,
/// shows the current schema.
pub proof fn recent_snapshots_show_the_current_schema(
    now: StaticTableProviderView,
    then: StaticTableProviderView,
    snapshot_id: i64,
)
    requires
        now.well_formed(),
        then.well_formed(),
        now.table == then.table,
        now.snapshot_id is None,
        then.snapshot_id == Some(snapshot_id),
        ({
            let contents = crate::outside::table_contents(*now.table);
            let named = crate::outside::snapshot_schema_id(contents.snapshots[snapshot_id]);
            named is None || named == Some(contents.current_schema_id)
        }),
    ensures
        then.schema == now.schema,
{
}

/// A planned append sorts the rows exactly where fanout writing is switched off.
pub proof fn rows_are_sorted_without_fanout(
    partitioned: bool,
    fanout_property: Option<Seq<char>>,
    target_partitions: nat,
)
    requires
        crate::insert::scheduled_failure(fanout_property, target_partitions) is None,
    ensures
        crate::insert::scheduled_stages(partitioned, fanout_property, target_partitions).contains(
            InsertStage::SortByPartition,
        ) <==> fanout_property == Some("false"@),
{
    reveal_strlit("true");
    reveal_strlit("false");
    assert("true"@.len() != "false"@.len());
    let stages = crate::insert::scheduled_stages(partitioned, fanout_property, target_partitions);
    if fanout_property == Some("false"@) {
        let i: int = if partitioned { 2 } else { 1 };
        assert(stages[i] == InsertStage::SortByPartition);
    }
}

/// A planned append gives the rows their partition exactly where the table is partitioned, and
/// does so first.
pub proof fn rows_carry_their_partition(
    partitioned: bool,
    fanout_property: Option<Seq<char>>,
    target_partitions: nat,
)
    ensures
        crate::insert::scheduled_stages(partitioned, fanout_property, target_partitions).contains(
            InsertStage::ProjectWithPartition,
        ) <==> partitioned,
        partitioned ==> crate::insert::scheduled_stages(
            partitioned,
            fanout_property,
            target_partitions,
        )[0] == InsertStage::ProjectWithPartition,
{
    let stages = crate::insert::scheduled_stages(partitioned, fanout_property, target_partitions);
    if partitioned {
        assert(stages[0] == InsertStage::ProjectWithPartition);
    }
}

/// A planned append writes, brings together what was written, and commits, in this order and
/// each once, at its end; where a setting is unusable it does none of this.
pub proof fn appends_end_with_one_commit(
    partitioned: bool,
    fanout_property: Option<Seq<char>>,
    target_partitions: nat,
)
    ensures
        ({
            let stages = crate::insert::scheduled_stages(
                partitioned,
                fanout_property,
                target_partitions,
            );
            &&& stages.no_duplicates()
            &&& if crate::insert::scheduled_failure(fanout_property, target_partitions) is None {
                &&& stages.len() >= 3
                &&& stages[stages.len() - 3] == InsertStage::Write
                &&& stages[stages.len() - 2] == InsertStage::CoalescePartitions
                &&& stages[stages.len() - 1] == InsertStage::Commit
            } else {
                &&& !stages.contains(InsertStage::Write)
                &&& !stages.contains(InsertStage::Commit)
            }
        }),
{
}

/// The commit that a provider plans goes through the provider's own catalog, to the table that
/// was loaded for the append, with the provider's schema.
pub proof fn commits_go_through_the_providers_catalog<C: ?Sized, P>(
    provider: TableProviderView<C>,
    target_partitions: usize,
    input: P,
    table: Table,
    position: nat,
    plan: P,
)
    ensures
        ({
            let planning = provider.append(target_partitions, input).planning(table).at(position);
            planning.action(plan) matches InsertAction::Commit {
                input: files,
                table: to,
                catalog,
                schema,
            } ==> files == plan && *to == table && catalog == provider.catalog && schema
                == provider.schema
        }),
{
}

/// Rows are only ever spread over at least one partition.
pub proof fn rows_are_spread_over_some_partition<C: ?Sized, P>(
    planning: InsertPlanningView<C>,
    plan: P,
)
    requires
        planning.position < planning.stages().len(),
    ensures
        planning.action(plan) matches InsertAction::Repartition { target_partitions, .. }
            ==> target_partitions > 0,
{
    if planning.target_partitions == 0 && planning.position < planning.stages().len() {
        assert(planning.stages()[planning.position as int] == InsertStage::ProjectWithPartition);
    }
}

/// Once all of its stages are through, a planned append is the plan that its commit made.
pub proof fn a_finished_append_is_its_commit<C: ?Sized, P>(
    planning: InsertPlanningView<C>,
    plan: P,
    progress: Result<InsertProgress<C, P>, ProviderError>,
)
    requires
        planning.failure() is None,
        planning.position < planning.stages().len(),
        crate::insert::goes_on(planning.at(planning.position + 1), plan, progress),
    ensures
        progress is Ok,
        progress matches Ok(InsertProgress::Done(finished)) ==> finished == plan
            && planning.stages()[planning.position as int] == InsertStage::Commit,
        progress matches Ok(InsertProgress::Next(..)) ==> planning.stages()[planning.position as int]
            != InsertStage::Commit,
{
}

/// The plan that the stage at position `k` of an append works on: the rows at first, and then
/// what the stage before it made.
pub open spec fn plan_before<P>(input: P, plans: Seq<P>, k: int) -> P {
    if k == 0 {
        input
    } else {
        plans[k - 1]
    }
}

/// An append whose actions can all be performed runs through the stages of its schedule, one
/// after another, each on the plan that the one before it made; the plan of the last one is the
/// plan of the append. Where a setting is unusable, its stages are followed by the refusal.
///
/// `plans` is what the actions make, and `progress` how the planning goes on: first with the
/// loaded table, and then with each of the plans.
pub proof fn an_append_runs_through_its_stages<C: ?Sized, P>(
    request: InsertRequestView<C, P>,
    table: Table,
    plans: Seq<P>,
    progress: Seq<Result<InsertProgress<C, P>, ProviderError>>,
)
    requires
        plans.len() == request.planning(table).stages().len(),
        progress.len() == plans.len() + 1,
        forall|k: int| #![trigger progress[k]]
            0 <= k < progress.len() ==> crate::insert::goes_on(
                request.planning(table).at(k as nat),
                plan_before(request.input, plans, k),
                progress[k],
            ),
    ensures
        forall|k: int| #![trigger progress[k]]
            0 <= k < plans.len() ==> {
                &&& progress[k] matches Ok(InsertProgress::Next(_, action))
                &&& action == request.planning(table).at(k as nat).action(
                    plan_before(request.input, plans, k),
                )
            },
        match request.planning(table).failure() {
            None => progress.last() == Ok::<InsertProgress<C, P>, ProviderError>(
                InsertProgress::Done(plans.last()),
            ),
            Some(text) => progress.last() matches Err(ProviderError::Configuration(message))
                && message@ == text,
        },
{
    let n = plans.len() as int;
    assert(crate::insert::goes_on(
        request.planning(table).at(n as nat),
        plan_before(request.input, plans, n),
        progress[n],
    ));
}

/// The snapshots of a table, newest first, after a run that wrote the snapshot `made` if it
/// came to that.
pub open spec fn after_run(
    lineage: Seq<CommittedSnapshotView>,
    decision: CommitDecision,
    made: CommittedSnapshotView,
) -> Seq<CommittedSnapshotView> {
    match decision {
        CommitDecision::Append => seq![made] + lineage,
        CommitDecision::AlreadyCommitted(_) => lineage,
    }
}

/// How many rows a run reports that wrote `written` rows.
pub open spec fn reported(decision: CommitDecision, written: u64) -> u64 {
    match decision {
        CommitDecision::Append => written,
        CommitDecision::AlreadyCommitted(rows) => rows,
    }
}

/// Running a planned append again commits nothing and reports what the first run reported,
/// whatever else was committed in between.
///
/// `base` is the snapshot that the append was planned on, `made` the snapshot that the first run
/// makes if it commits, and `later` what others committed after it, newest first. Snapshots made
/// after the append was planned are not the one it was planned on, and no other append has its
/// id.
pub proof fn rerunning_an_append_commits_once(
    lineage: Seq<CommittedSnapshotView>,
    base: Option<i64>,
    commit_id: Seq<char>,
    first: CommitDecision,
    made: CommittedSnapshotView,
    later: Seq<CommittedSnapshotView>,
    second: CommitDecision,
    remade: CommittedSnapshotView,
)
    requires
        crate::commit::decides(lineage, base, commit_id, first),
        made.commit_id == Some(commit_id),
        base != Some(made.snapshot_id),
        forall|i: int| #![trigger later[i]]
            0 <= i < later.len() ==> base != Some(later[i].snapshot_id) && later[i].commit_id
                != Some(commit_id),
        crate::commit::decides(
            later + after_run(lineage, first, made),
            base,
            commit_id,
            second,
        ),
    ensures
        second is AlreadyCommitted,
        reported(second, remade.added_rows) == reported(first, made.added_rows),
        after_run(later + after_run(lineage, first, made), second, remade) == later + after_run(
            lineage,
            first,
            made,
        ),
{
    let table = after_run(lineage, first, made);
    let whole = later + table;
    // The position in `table` of the commit that the second run finds.
    let k: int = match first {
        CommitDecision::Append => 0,
        CommitDecision::AlreadyCommitted(rows) => choose|i: int|
            {
                &&& #[trigger] crate::commit::is_commit(lineage, base, commit_id, i)
                &&& rows == lineage[i].added_rows
                &&& forall|j: int|
                    0 <= j < i ==> !crate::commit::is_commit(lineage, base, commit_id, j)
            },
    };
    let n = later.len() as int + k;
    assert(whole[n] == table[k]);
    assert(crate::commit::made_since(whole, base, n)) by {
        assert forall|j: int| 0 <= j <= n implies base != Some(
            (#[trigger] whole[j]).snapshot_id,
        ) by {
            if j < later.len() {
                assert(whole[j] == later[j]);
            } else {
                assert(whole[j] == table[j - later.len()]);
            }
        }
    }
    assert(crate::commit::is_commit(whole, base, commit_id, n));
    assert forall|j: int| 0 <= j < n implies !crate::commit::is_commit(
        whole,
        base,
        commit_id,
        j,
    ) by {
        if j < later.len() {
            assert(whole[j] == later[j]);
        } else if crate::commit::is_commit(whole, base, commit_id, j) {
            let i = j - later.len();
            assert(whole[j] == table[i]);
            assert forall|m: int| 0 <= m <= i implies base != Some(
                (#[trigger] lineage[m]).snapshot_id,
            ) by {
                assert(whole[m + later.len()] == lineage[m]);
            }
            assert(crate::commit::is_commit(lineage, base, commit_id, i));
        }
    }
}

/// An append that no run has committed yet is committed, also where the table holds commits of
/// other appends: separately planned appends are separate commits.
pub proof fn separately_planned_appends_all_commit(
    lineage: Seq<CommittedSnapshotView>,
    base: Option<i64>,
    commit_id: Seq<char>,
    decision: CommitDecision,
)
    requires
        forall|i: int| #![trigger lineage[i]]
            0 <= i < lineage.len() ==> lineage[i].commit_id != Some(commit_id),
        crate::commit::decides(lineage, base, commit_id, decision),
    ensures
        decision is Append,
{
}

} // verus!
