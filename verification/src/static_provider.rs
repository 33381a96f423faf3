//! The provider for one state of a table.

use std::sync::Arc;

use datafusion::arrow::datatypes::Schema as ArrowSchema;
use iceberg::spec::Schema;
use iceberg::table::Table;
use vstd::prelude::*;

use crate::error::{snapshot_not_found, ProviderError};
use crate::insert::InsertOp;
use crate::outside::{
    current_schema, snapshot_by_id, snapshot_schema, table_name,
};
use crate::provider::{push_down_all, FilterPushDown, TableType};
use crate::schema::to_arrow;
use crate::scan::{IcebergTableScan, TableScanView};

verus! {

/// What a static provider is made of.
pub struct StaticTableProviderView {
    /// The table, as given when the provider was built.
    pub table: Arc<Table>,
    /// The snapshot that is read; `None` stands for the current one of `table`.
    pub snapshot_id: Option<i64>,
    /// The schema that the provider offers.
    pub schema: Arc<ArrowSchema>,
}

/// The schema of `table` at a snapshot, or its current one. `None` where the table does not
/// have the snapshot, or no longer has the snapshot's schema.
pub open spec fn schema_at(table: Table, snapshot_id: Option<i64>) -> Option<Schema> {
    let contents = crate::outside::table_contents(table);
    match snapshot_id {
        None => Some(contents.current_schema()),
        Some(id) => if contents.snapshots.contains_key(id) {
            contents.snapshot_schema(crate::outside::snapshot_schema_id(contents.snapshots[id]))
        } else {
            None
        },
    }
}

impl StaticTableProviderView {
    /// The schema on offer is that of the table at the snapshot that is read.
    pub open spec fn well_formed(self) -> bool {
        &&& schema_at(*self.table, self.snapshot_id) matches Some(schema)
        &&& crate::schema::shows(*self.schema, schema)
    }

    /// Whether the provider can plan a scan with this projection.
    pub open spec fn offers(self, projection: Option<Seq<usize>>) -> bool {
        crate::scan::selects_columns(
            projection,
            crate::outside::arrow_columns(*self.schema).len(),
        )
    }

    /// Whether `scan` is what the provider plans: of the table that it holds, at the snapshot
    /// that it was built for.
    pub open spec fn plans_scan<F>(
        self,
        projection: Option<Seq<usize>>,
        filters: Seq<F>,
        limit: Option<usize>,
        scan: TableScanView<F>,
    ) -> bool {
        scan.reads(self.table, self.snapshot_id, *self.schema, projection, filters, limit)
    }
}

/// Static table provider for read-only snapshot access.
///
/// This provider holds a table as it once was: it neither refreshes it nor writes to it. Use it
/// for consistent analytical queries, for time travel, or to do without a catalog.
///
/// For tables with write support and automatic refresh, use
/// [`IcebergTableProvider`](crate::IcebergTableProvider).
#[derive(Debug)]
pub struct IcebergStaticTableProvider {
    table: Arc<Table>,
    snapshot_id: Option<i64>,
    schema: Arc<ArrowSchema>,
}

impl View for IcebergStaticTableProvider {
    type V = StaticTableProviderView;

    closed spec fn view(&self) -> StaticTableProviderView {
        StaticTableProviderView {
            table: self.table,
            snapshot_id: self.snapshot_id,
            schema: self.schema,
        }
    }
}

impl Clone for IcebergStaticTableProvider {
    fn clone(&self) -> (copy: Self)
        ensures
            copy@ == self@,
    {
        proof {
            use_type_invariant(self);
        }
        IcebergStaticTableProvider {
            table: self.table.clone(),
            snapshot_id: self.snapshot_id,
            schema: self.schema.clone(),
        }
    }
}

/// The text that a write to a static provider is refused with.
pub open spec fn read_only_text() -> Seq<char> {
    "Write operations are not supported on IcebergStaticTableProvider. Use IcebergTableProvider with a catalog for write support."@
}

impl IcebergStaticTableProvider {
    /// See [`StaticTableProviderView::well_formed`].
    #[verifier::type_invariant]
    spec fn holds_its_schema(self) -> bool {
        self@.well_formed()
    }

    /// Creates a static provider from a table.
    ///
    /// Uses the table's current snapshot for all queries. Does not support write operations.
    pub fn try_new_from_table(table: Table) -> (provider: Result<Self, ProviderError>)
        ensures
            match crate::outside::arrow_schema_of(
                crate::outside::table_contents(table).current_schema(),
            ) {
                Ok(_) => {
                    &&& provider matches Ok(made)
                    &&& *made@.table == table
                    &&& made@.snapshot_id is None
                    &&& made@.well_formed()
                },
                Err(message) => provider matches Err(error) && crate::schema::blames_the_table(
                    error,
                    message,
                ),
            },
    {
        match to_arrow(&current_schema(&table)) {
            Err(error) => Err(error),
            Ok(schema) => Ok(
                IcebergStaticTableProvider {
                    table: Arc::new(table),
                    snapshot_id: None,
                    schema: Arc::new(schema),
                },
            ),
        }
    }

    /// Creates a static provider for one snapshot of a table.
    ///
    /// Reads that snapshot in all queries. Useful for time travel. Does not support write
    /// operations.
    pub fn try_new_from_table_snapshot(table: Table, snapshot_id: i64) -> (provider: Result<
        Self,
        ProviderError,
    >)
        ensures
            ({
                let contents = crate::outside::table_contents(table);
                if !contents.snapshots.contains_key(snapshot_id) {
                    &&& provider matches Err(ProviderError::Execution(text))
                    &&& text@ == crate::error::snapshot_not_found_text(
                        snapshot_id as int,
                        contents.name,
                    )
                } else {
                    match schema_at(table, Some(snapshot_id)) {
                        None => provider matches Err(error) && crate::schema::blames_the_table(
                            error,
                            crate::outside::lost_schema_text(
                                crate::outside::snapshot_schema_id(
                                    contents.snapshots[snapshot_id],
                                )->Some_0 as int,
                            ),
                        ),
                        Some(schema) => match crate::outside::arrow_schema_of(schema) {
                            Ok(_) => {
                                &&& provider matches Ok(made)
                                &&& *made@.table == table
                                &&& made@.snapshot_id == Some(snapshot_id)
                                &&& made@.well_formed()
                            },
                            Err(message) => provider matches Err(error)
                                && crate::schema::blames_the_table(error, message),
                        },
                    }
                }
            }),
    {
        let snapshot = match snapshot_by_id(&table, snapshot_id) {
            Some(snapshot) => snapshot,
            None => {
                return Err(snapshot_not_found(snapshot_id, table_name(&table).as_str()));
            },
        };
        let table_schema = match snapshot_schema(&snapshot, &table) {
            Ok(schema) => schema,
            Err(error) => {
                return Err(ProviderError::External(error));
            },
        };
        match to_arrow(&table_schema) {
            Err(error) => Err(error),
            Ok(schema) => Ok(
                IcebergStaticTableProvider {
                    table: Arc::new(table),
                    snapshot_id: Some(snapshot_id),
                    schema: Arc::new(schema),
                },
            ),
        }
    }

    /// The table as loaded when this provider was built.
    pub fn table(&self) -> (table: &Table)
        ensures
            *table == *self@.table,
    {
        &self.table
    }

    /// The snapshot this provider reads, or `None` for the current snapshot of
    /// [`Self::table`].
    pub fn snapshot_id(&self) -> (id: Option<i64>)
        ensures
            id == self@.snapshot_id,
            schema_at(*self@.table, id) is Some,
    {
        proof {
            use_type_invariant(self);
        }
        self.snapshot_id
    }

    /// The schema of the table at the snapshot that is read.
    pub fn schema(&self) -> (schema: Arc<ArrowSchema>)
        ensures
            schema == self@.schema,
            self@.well_formed(),
    {
        proof {
            use_type_invariant(self);
        }
        self.schema.clone()
    }

    /// The table is an ordinary one.
    pub fn table_type(&self) -> (table_type: TableType)
        ensures
            table_type == TableType::Base,
    {
        TableType::Base
    }

    /// Plans a scan of the table at the snapshot of this provider.
    pub fn scan<F>(
        &self,
        projection: Option<&Vec<usize>>,
        filters: Vec<F>,
        limit: Option<usize>,
    ) -> (scan: Result<IcebergTableScan<F>, ProviderError>)
        ensures
            scan is Ok <==> self@.offers(crate::scan::optional_positions(projection)),
            scan matches Err(error) ==> crate::scan::refuses_projection(
                error,
                crate::scan::optional_positions(projection),
                crate::outside::arrow_columns(*self@.schema).len(),
            ),
            scan matches Ok(made) ==> self@.plans_scan(
                crate::scan::optional_positions(projection),
                filters@,
                limit,
                made@,
            ),
    {
        IcebergTableScan::new(
            self.table.clone(),
            self.snapshot_id,
            self.schema.clone(),
            projection,
            filters,
            limit,
        )
    }

    /// Takes every filter, without promising to heed it in full.
    pub fn supports_filters_pushdown<F>(&self, filters: &[F]) -> (heeded: Result<
        Vec<FilterPushDown>,
        ProviderError,
    >)
        ensures
            heeded matches Ok(list) && list@ == Seq::new(
                filters@.len(),
                |i: int| FilterPushDown::Inexact,
            ),
    {
        Ok(push_down_all(filters))
    }

    /// Refuses every insert.
    pub fn insert_into<P>(&self, input: P, insert_op: InsertOp) -> (plan: Result<P, ProviderError>)
        ensures
            plan matches Err(ProviderError::NotImplemented(text)) && text@ == read_only_text(),
    {
        Err(
            ProviderError::NotImplemented(
                "Write operations are not supported on IcebergStaticTableProvider. Use IcebergTableProvider with a catalog for write support.".to_owned(),
            ),
        )
    }
}

} // verus!
