//! The catalog-backed provider.

use std::sync::Arc;

use datafusion::arrow::datatypes::Schema as ArrowSchema;
use iceberg::inspect::MetadataTableType;
use iceberg::table::Table;
use iceberg::{NamespaceIdent, TableIdent};
use vstd::prelude::*;

use crate::error::ProviderError;
use crate::insert::{check_insert_op, InsertOp, InsertRequest, InsertRequestView};
use crate::outside::{current_schema, new_table_ident};
use crate::schema::to_arrow;
use crate::scan::{IcebergTableScan, TableScanView};

verus! {

/// What kind of table a provider offers.
#[derive(Clone, Copy, Debug, PartialEq, Eq, Structural)]
pub enum TableType {
    /// An ordinary table.
    Base,
    /// The result of a query.
    View,
    /// A table that goes away with the session.
    Temporary,
}

/// How far a provider heeds a filter.
#[derive(Clone, Copy, Debug, PartialEq, Eq, Structural)]
pub enum FilterPushDown {
    /// Not at all.
    Unsupported,
    /// Rows that do not pass may still come out, so the engine filters again.
    Inexact,
    /// Only rows that pass come out.
    Exact,
}

/// Every filter is taken, and none is promised to be heeded in full: the scan drops those that
/// it cannot use.
pub fn push_down_all<F>(filters: &[F]) -> (heeded: Vec<FilterPushDown>)
    ensures
        heeded@ == Seq::new(filters@.len(), |i: int| FilterPushDown::Inexact),
{
    let mut heeded: Vec<FilterPushDown> = Vec::new();
    let mut i: usize = 0;
    while i < filters.len()
        invariant
            i <= filters@.len(),
            heeded@ == Seq::new(i as nat, |j: int| FilterPushDown::Inexact),
        decreases filters@.len() - i,
    {
        heeded.push(FilterPushDown::Inexact);
        i = i + 1;
    }
    heeded
}

/// What a catalog-backed provider is made of.
pub struct TableProviderView<C: ?Sized> {
    /// The catalog that manages the table.
    pub catalog: Arc<C>,
    /// The identifier of the table.
    pub table_ident: TableIdent,
    /// The schema that the provider offers.
    pub schema: Arc<ArrowSchema>,
}

impl<C: ?Sized> TableProviderView<C> {
    /// Whether the provider can plan a scan with this projection.
    pub open spec fn offers(self, projection: Option<Seq<usize>>) -> bool {
        crate::scan::selects_columns(
            projection,
            crate::outside::arrow_columns(*self.schema).len(),
        )
    }

    /// Whether `scan` is what the provider plans on `table`, the table as just loaded: always
    /// at its current snapshot, and always with the schema that the provider offers.
    pub open spec fn plans_scan<F>(
        self,
        table: Table,
        projection: Option<Seq<usize>>,
        filters: Seq<F>,
        limit: Option<usize>,
        scan: TableScanView<F>,
    ) -> bool {
        scan.reads(Arc::new(table), None, *self.schema, projection, filters, limit)
    }

    /// The append of the rows of `input` that the provider plans.
    pub open spec fn append<P>(self, target_partitions: usize, input: P) -> InsertRequestView<C, P> {
        InsertRequestView {
            catalog: self.catalog,
            table_ident: self.table_ident,
            schema: self.schema,
            target_partitions,
            input,
        }
    }
}

/// Catalog-backed table provider with automatic metadata refresh.
///
/// Every scan and every write starts from the table as the catalog has it at that moment. Use
/// this provider to write, or to see the latest state of the table.
///
/// For read-only access to one snapshot without going to a catalog, use
/// [`IcebergStaticTableProvider`](crate::IcebergStaticTableProvider).
#[derive(Debug)]
pub struct IcebergTableProvider<C: ?Sized> {
    catalog: Arc<C>,
    table_ident: Arc<TableIdent>,
    schema: Arc<ArrowSchema>,
}

impl<C: ?Sized> View for IcebergTableProvider<C> {
    type V = TableProviderView<C>;

    closed spec fn view(&self) -> TableProviderView<C> {
        TableProviderView {
            catalog: self.catalog,
            table_ident: *self.table_ident,
            schema: self.schema,
        }
    }
}

impl<C: ?Sized> Clone for IcebergTableProvider<C> {
    fn clone(&self) -> (copy: Self)
        ensures
            copy@ == self@,
    {
        IcebergTableProvider {
            catalog: self.catalog.clone(),
            table_ident: self.table_ident.clone(),
            schema: self.schema.clone(),
        }
    }
}

/// A provider in the making: its table has to be loaded from `catalog`.
#[derive(Debug)]
pub struct TableLoad<C: ?Sized> {
    /// The catalog that manages the table.
    pub catalog: Arc<C>,
    /// The table to load.
    pub table_ident: TableIdent,
}

impl<C: ?Sized> IcebergTableProvider<C> {
    /// Asks for the table that a provider for `name` in `namespace` needs.
    pub fn open(catalog: Arc<C>, namespace: NamespaceIdent, name: String) -> (load: TableLoad<C>)
        ensures
            load.catalog == catalog,
            crate::outside::ident_parts(load.table_ident) == (namespace, name@),
    {
        TableLoad { catalog, table_ident: new_table_ident(namespace, name) }
    }

    /// Creates a catalog-backed table provider.
    ///
    /// Takes what the catalog gave for the table that [`Self::open`] asked for, keeps the
    /// schema of it, and keeps the catalog for the operations to come.
    ///
    /// # Errors
    ///
    /// Returns an error if the catalog could not load the table, or its schema has no Arrow
    /// equivalent.
    pub fn try_new(load: TableLoad<C>, loaded: Result<Table, iceberg::Error>) -> (provider: Result<
        Self,
        ProviderError,
    >)
        ensures
            match loaded {
                Err(error) => provider == Err::<Self, ProviderError>(
                    ProviderError::External(error),
                ),
                Ok(table) => {
                    let current = crate::outside::table_contents(table).current_schema();
                    match crate::outside::arrow_schema_of(current) {
                        Ok(_) => {
                            &&& provider matches Ok(made)
                            &&& made@.catalog == load.catalog
                            &&& made@.table_ident == load.table_ident
                            &&& crate::schema::shows(*made@.schema, current)
                        },
                        Err(message) => provider matches Err(error)
                            && crate::schema::blames_the_table(error, message),
                    }
                },
            },
    {
        match loaded {
            Err(error) => Err(ProviderError::External(error)),
            Ok(table) => match to_arrow(&current_schema(&table)) {
                Err(error) => Err(error),
                Ok(schema) => Ok(
                    Self::new_with_schema(load.catalog, load.table_ident, Arc::new(schema)),
                ),
            },
        }
    }

    /// Creates a catalog-backed table provider with a known schema, without loading the table.
    ///
    /// For rebuilding a provider elsewhere, such as on a distributed engine's scheduler, from
    /// the parts of one built with [`Self::try_new`]: pass its
    /// [`table_ident`](Self::table_ident) and [`schema`](Self::schema). The rebuilt provider
    /// then plans exactly as the first one does, including when the table's schema has changed
    /// since the first one was built.
    ///
    /// `schema` should be a schema of the table: scans select their columns from the table by
    /// name.
    pub fn new_with_schema(
        catalog: Arc<C>,
        table_ident: TableIdent,
        schema: Arc<ArrowSchema>,
    ) -> (provider: Self)
        ensures
            provider@ == (TableProviderView { catalog, table_ident, schema }),
    {
        IcebergTableProvider { catalog, table_ident: Arc::new(table_ident), schema }
    }

    /// The catalog this provider loads its table from and commits through.
    pub fn catalog(&self) -> (catalog: &Arc<C>)
        ensures
            *catalog == self@.catalog,
    {
        &self.catalog
    }

    /// The identifier of the table this provider reads and writes.
    pub fn table_ident(&self) -> (ident: &TableIdent)
        ensures
            *ident == self@.table_ident,
    {
        &self.table_ident
    }

    /// The schema of the table, as of when the provider was built.
    pub fn schema(&self) -> (schema: Arc<ArrowSchema>)
        ensures
            schema == self@.schema,
    {
        self.schema.clone()
    }

    /// The table is an ordinary one.
    pub fn table_type(&self) -> (table_type: TableType)
        ensures
            table_type == TableType::Base,
    {
        TableType::Base
    }

    /// A provider for one of the metadata tables of the table, as just loaded.
    pub fn metadata_table(
        &self,
        table_type: MetadataTableType,
        loaded: Result<Table, iceberg::Error>,
    ) -> (provider: Result<IcebergMetadataTableProvider, ProviderError>)
        ensures
            match loaded {
                Err(error) => provider == Err::<IcebergMetadataTableProvider, ProviderError>(
                    ProviderError::External(error),
                ),
                Ok(table) => provider == Ok::<IcebergMetadataTableProvider, ProviderError>(
                    IcebergMetadataTableProvider { table, table_type },
                ),
            },
    {
        match loaded {
            Err(error) => Err(ProviderError::External(error)),
            Ok(table) => Ok(IcebergMetadataTableProvider { table, table_type }),
        }
    }

    /// Plans a scan of the table as just loaded, always at its current snapshot.
    pub fn scan<F>(
        &self,
        loaded: Result<Table, iceberg::Error>,
        projection: Option<&Vec<usize>>,
        filters: Vec<F>,
        limit: Option<usize>,
    ) -> (scan: Result<IcebergTableScan<F>, ProviderError>)
        ensures
            match loaded {
                Err(error) => scan == Err::<IcebergTableScan<F>, ProviderError>(
                    ProviderError::External(error),
                ),
                Ok(table) => {
                    &&& scan is Ok <==> self@.offers(crate::scan::optional_positions(projection))
                    &&& scan matches Err(error) ==> crate::scan::refuses_projection(
                        error,
                        crate::scan::optional_positions(projection),
                        crate::outside::arrow_columns(*self@.schema).len(),
                    )
                    &&& scan matches Ok(made) ==> self@.plans_scan(
                        table,
                        crate::scan::optional_positions(projection),
                        filters@,
                        limit,
                        made@,
                    )
                },
            },
    {
        match loaded {
            Err(error) => Err(ProviderError::External(error)),
            Ok(table) => IcebergTableScan::new(
                Arc::new(table),
                None,
                self.schema.clone(),
                projection,
                filters,
                limit,
            ),
        }
    }

    /// Takes every filter, without promising to heed it in full.
    pub fn supports_filters_pushdown<F>(&self, filters: &[F]) -> (heeded: Result<
        Vec<FilterPushDown>,
        ProviderError,
    >)
        ensures
            heeded matches Ok(list) && list@ == Seq::new(
                filters@.len(),
                |i: int| FilterPushDown::Inexact,
            ),
    {
        Ok(push_down_all(filters))
    }

    /// Starts planning an insert of the rows of `input`; only appends are offered.
    ///
    /// The table is to be loaded afresh before the planning goes on.
    pub fn insert_into<P>(
        &self,
        target_partitions: usize,
        input: P,
        insert_op: InsertOp,
    ) -> (request: Result<InsertRequest<C, P>, ProviderError>)
        ensures
            request is Ok <==> insert_op is Append,
            request matches Err(error) ==> (error matches ProviderError::NotImplemented(text)
                && text@ == crate::insert::append_only_text(insert_op)),
            request matches Ok(made) ==> made@ == self@.append(target_partitions, input),
    {
        match check_insert_op(insert_op) {
            Err(error) => Err(error),
            Ok(()) => Ok(
                InsertRequest::new(
                    self.catalog.clone(),
                    self.table_ident.clone(),
                    self.schema.clone(),
                    target_partitions,
                    input,
                ),
            ),
        }
    }
}

/// Provider for one of the metadata tables of a table, such as the list of its snapshots.
#[derive(Debug)]
pub struct IcebergMetadataTableProvider {
    /// The table that is described.
    pub table: Table,
    /// Which of its metadata tables this is.
    pub table_type: MetadataTableType,
}

} // verus!
