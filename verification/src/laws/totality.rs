//! Every request is answered: no argument is left out.

use std::sync::Arc;

use datafusion::arrow::datatypes::Schema as ArrowSchema;
use iceberg::inspect::MetadataTableType;
use iceberg::spec::Schema;
use iceberg::table::Table;
use iceberg::{NamespaceIdent, TableIdent};
use vstd::prelude::*;

use crate::commit::{CommittedSnapshot, IcebergCommitExec};
use crate::insert::{InsertOp, InsertPlanning, InsertRequest};
use crate::provider::{IcebergTableProvider, TableLoad};
use crate::scan::IcebergTableScan;
use crate::static_provider::IcebergStaticTableProvider;

verus! {

/// A catalog-backed provider can be asked for on any catalog, namespace and name, and built from
/// whatever the catalog gave, or from any schema.
pub proof fn any_provider_can_be_built<C: ?Sized>(
    catalog: Arc<C>,
    namespace: NamespaceIdent,
    name: String,
    load: TableLoad<C>,
    loaded: Result<Table, iceberg::Error>,
    table_ident: TableIdent,
    schema: Arc<ArrowSchema>,
)
    ensures
        call_requires(IcebergTableProvider::<C>::open, (catalog, namespace, name)),
        call_requires(IcebergTableProvider::<C>::try_new, (load, loaded)),
        call_requires(
            IcebergTableProvider::<C>::new_with_schema,
            (catalog, table_ident, schema),
        ),
{
}

/// A static provider can be asked for on any table and any snapshot.
pub proof fn any_static_provider_can_be_asked_for(table: Table, snapshot_id: i64)
    ensures
        call_requires(IcebergStaticTableProvider::try_new_from_table, (table,)),
        call_requires(
            IcebergStaticTableProvider::try_new_from_table_snapshot,
            (table, snapshot_id),
        ),
{
}

/// A catalog-backed provider answers every request, whatever the catalog gave.
pub proof fn catalog_backed_providers_answer<C: ?Sized, F, P>(
    provider: IcebergTableProvider<C>,
    loaded: Result<Table, iceberg::Error>,
    table_type: MetadataTableType,
    projection: Option<&Vec<usize>>,
    filters: Vec<F>,
    limit: Option<usize>,
    offered: &[F],
    target_partitions: usize,
    input: P,
    op: InsertOp,
)
    ensures
        call_requires(IcebergTableProvider::<C>::catalog, (&provider,)),
        call_requires(IcebergTableProvider::<C>::table_ident, (&provider,)),
        call_requires(IcebergTableProvider::<C>::schema, (&provider,)),
        call_requires(IcebergTableProvider::<C>::table_type, (&provider,)),
        call_requires(IcebergTableProvider::<C>::clone, (&provider,)),
        call_requires(
            IcebergTableProvider::<C>::metadata_table,
            (&provider, table_type, loaded),
        ),
        call_requires(
            IcebergTableProvider::<C>::scan::<F>,
            (&provider, loaded, projection, filters, limit),
        ),
        call_requires(
            IcebergTableProvider::<C>::supports_filters_pushdown::<F>,
            (&provider, offered),
        ),
        call_requires(
            IcebergTableProvider::<C>::insert_into::<P>,
            (&provider, target_partitions, input, op),
        ),
{
}

/// A static provider answers every request.
pub proof fn static_providers_answer<F, P>(
    provider: IcebergStaticTableProvider,
    projection: Option<&Vec<usize>>,
    filters: Vec<F>,
    limit: Option<usize>,
    offered: &[F],
    input: P,
    op: InsertOp,
)
    ensures
        call_requires(IcebergStaticTableProvider::table, (&provider,)),
        call_requires(IcebergStaticTableProvider::snapshot_id, (&provider,)),
        call_requires(IcebergStaticTableProvider::schema, (&provider,)),
        call_requires(IcebergStaticTableProvider::table_type, (&provider,)),
        call_requires(IcebergStaticTableProvider::clone, (&provider,)),
        call_requires(
            IcebergStaticTableProvider::scan::<F>,
            (&provider, projection, filters, limit),
        ),
        call_requires(
            IcebergStaticTableProvider::supports_filters_pushdown::<F>,
            (&provider, offered),
        ),
        call_requires(
            IcebergStaticTableProvider::insert_into::<P>,
            (&provider, input, op),
        ),
{
}

/// A scan can be asked for on any table, and everything of it can be looked at.
pub proof fn scans_answer<F>(
    table: Arc<Table>,
    snapshot_id: Option<i64>,
    schema: Arc<ArrowSchema>,
    projection: Option<&Vec<usize>>,
    filters: Vec<F>,
    limit: Option<usize>,
    scan: IcebergTableScan<F>,
)
    ensures
        call_requires(
            IcebergTableScan::<F>::new,
            (table, snapshot_id, schema, projection, filters, limit),
        ),
        call_requires(IcebergTableScan::<F>::table, (&scan,)),
        call_requires(IcebergTableScan::<F>::snapshot_id, (&scan,)),
        call_requires(IcebergTableScan::<F>::schema, (&scan,)),
        call_requires(IcebergTableScan::<F>::projection, (&scan,)),
        call_requires(IcebergTableScan::<F>::filters, (&scan,)),
        call_requires(IcebergTableScan::<F>::limit, (&scan,)),
{
}

/// The planning of an append goes on with whatever the catalog gave, and with whatever came of an
/// action.
pub proof fn appends_go_on<C: ?Sized, P, E>(
    request: InsertRequest<C, P>,
    loaded: Result<Table, iceberg::Error>,
    planning: InsertPlanning<C>,
    result: Result<P, E>,
)
    ensures
        call_requires(InsertRequest::<C, P>::catalog, (&request,)),
        call_requires(InsertRequest::<C, P>::table_ident, (&request,)),
        call_requires(InsertRequest::<C, P>::table_loaded, (request, loaded)),
        call_requires(InsertPlanning::<C>::planned::<P, E>, (planning, result)),
{
}

/// A commit can be made of anything, and decides on every lineage.
pub proof fn commits_decide<C: ?Sized, P>(
    table: Arc<Table>,
    catalog: Arc<C>,
    input: P,
    schema: Arc<ArrowSchema>,
    commit_id: String,
    commit: IcebergCommitExec<C, P>,
    lineage: Vec<CommittedSnapshot>,
)
    ensures
        call_requires(
            IcebergCommitExec::<C, P>::new,
            (table, catalog, input, schema, commit_id),
        ),
        call_requires(IcebergCommitExec::<C, P>::replace_input, (&commit, input)),
        call_requires(IcebergCommitExec::<C, P>::table, (&commit,)),
        call_requires(IcebergCommitExec::<C, P>::catalog, (&commit,)),
        call_requires(IcebergCommitExec::<C, P>::input, (&commit,)),
        call_requires(IcebergCommitExec::<C, P>::schema, (&commit,)),
        call_requires(IcebergCommitExec::<C, P>::commit_id, (&commit,)),
        call_requires(IcebergCommitExec::<C, P>::decide, (&commit, &lineage)),
{
}

/// What the providers are built on takes every argument as well.
pub proof fn the_parts_answer<F>(
    op: InsertOp,
    property: Option<&str>,
    text: &str,
    partitioned: bool,
    target_partitions: usize,
    number: i64,
    schema: Schema,
    offered: &[F],
)
    ensures
        call_requires(InsertOp::name, (&op,)),
        call_requires(crate::insert::check_insert_op, (op,)),
        call_requires(crate::insert::invalid_fanout, (text,)),
        call_requires(crate::insert::fanout_enabled, (property,)),
        call_requires(
            crate::insert::schedule_insert,
            (partitioned, property, target_partitions),
        ),
        call_requires(crate::text::integer, (number,)),
        call_requires(crate::error::snapshot_not_found, (number, text)),
        call_requires(crate::schema::to_arrow, (&schema,)),
        call_requires(crate::provider::push_down_all::<F>, (offered,)),
{
}

} // verus!
