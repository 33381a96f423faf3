//! What holds of the providers as they are built, and of what they answer without a scan.

use std::sync::Arc;

use datafusion::arrow::datatypes::Schema as ArrowSchema;
use iceberg::inspect::MetadataTableType;
use iceberg::spec::Schema;
use iceberg::table::Table;
use iceberg::{NamespaceIdent, TableIdent};
use vstd::prelude::*;

use crate::error::ProviderError;
use crate::insert::InsertOp;
use crate::provider::{
    FilterPushDown, IcebergMetadataTableProvider, IcebergTableProvider, TableLoad, TableType,
};
use crate::static_provider::IcebergStaticTableProvider;

verus! {

/// A provider asks its catalog for the table of the given name in the given namespace.
pub proof fn the_named_table_is_asked_for<C: ?Sized>(
    catalog: Arc<C>,
    namespace: NamespaceIdent,
    name: String,
    load: TableLoad<C>,
)
    requires
        call_ensures(IcebergTableProvider::<C>::open, (catalog, namespace, name), load),
    ensures
        load.catalog == catalog,
        crate::outside::ident_parts(load.table_ident).0 == namespace,
        crate::outside::ident_parts(load.table_ident).1 == name@,
{
}

/// On a table that could be loaded, a catalog-backed provider is built exactly where the table's
/// current schema has an Arrow equivalent. It then offers that, with the columns of the table
/// under their names and in their order, and keeps the catalog and the identifier. Else it
/// answers that the data is invalid, with the message of the conversion.
pub proof fn a_built_provider_offers_the_current_schema<C: ?Sized>(
    load: TableLoad<C>,
    table: Table,
    built: Result<IcebergTableProvider<C>, ProviderError>,
    catalog: &Arc<C>,
    table_ident: &TableIdent,
    schema: Arc<ArrowSchema>,
)
    requires
        call_ensures(
            IcebergTableProvider::<C>::try_new,
            (load, Ok::<Table, iceberg::Error>(table)),
            built,
        ),
        built matches Ok(provider) ==> {
            &&& call_ensures(IcebergTableProvider::<C>::catalog, (&provider,), catalog)
            &&& call_ensures(IcebergTableProvider::<C>::table_ident, (&provider,), table_ident)
            &&& call_ensures(IcebergTableProvider::<C>::schema, (&provider,), schema)
        },
    ensures
        ({
            let contents = crate::outside::table_contents(table);
            let current = contents.schemas[contents.current_schema_id];
            match crate::outside::arrow_schema_of(current) {
                Ok(arrow) => {
                    let columns = crate::outside::schema_columns(current);
                    let offered = crate::outside::arrow_columns(*schema);
                    &&& built is Ok
                    &&& *catalog == load.catalog
                    &&& *table_ident == load.table_ident
                    &&& *schema == arrow
                    &&& offered.len() == columns.len()
                    &&& forall|i: int| #![trigger offered[i]]
                        0 <= i < offered.len() ==> offered[i].name == columns[i].name
                            && offered[i].nullable == !columns[i].required
                },
                Err(message) => {
                    &&& built matches Err(ProviderError::External(cause))
                    &&& crate::outside::error_contents(cause).data_invalid
                    &&& crate::outside::error_contents(cause).message == message
                },
            }
        }),
{
}

/// A provider whose table could not be loaded is not built, and the answer is the catalog's own
/// error.
pub proof fn no_provider_without_a_table<C: ?Sized>(
    load: TableLoad<C>,
    error: iceberg::Error,
    built: Result<IcebergTableProvider<C>, ProviderError>,
)
    requires
        call_ensures(
            IcebergTableProvider::<C>::try_new,
            (load, Err::<Table, iceberg::Error>(error)),
            built,
        ),
    ensures
        built == Err::<IcebergTableProvider<C>, ProviderError>(ProviderError::External(error)),
{
}

/// A provider that is built with a known schema keeps what it is given.
pub proof fn a_provider_keeps_its_parts<C: ?Sized>(
    given_catalog: Arc<C>,
    given_ident: TableIdent,
    given_schema: Arc<ArrowSchema>,
    provider: IcebergTableProvider<C>,
    catalog: &Arc<C>,
    table_ident: &TableIdent,
    schema: Arc<ArrowSchema>,
)
    requires
        call_ensures(
            IcebergTableProvider::<C>::new_with_schema,
            (given_catalog, given_ident, given_schema),
            provider,
        ),
        call_ensures(IcebergTableProvider::<C>::catalog, (&provider,), catalog),
        call_ensures(IcebergTableProvider::<C>::table_ident, (&provider,), table_ident),
        call_ensures(IcebergTableProvider::<C>::schema, (&provider,), schema),
    ensures
        *catalog == given_catalog,
        *table_ident == given_ident,
        schema == given_schema,
{
}

/// A copy of a catalog-backed provider has the parts of the provider.
pub proof fn a_copy_keeps_the_parts<C: ?Sized>(
    provider: IcebergTableProvider<C>,
    copy: IcebergTableProvider<C>,
    catalog: &Arc<C>,
    table_ident: &TableIdent,
    schema: Arc<ArrowSchema>,
    copied_catalog: &Arc<C>,
    copied_ident: &TableIdent,
    copied_schema: Arc<ArrowSchema>,
)
    requires
        call_ensures(IcebergTableProvider::<C>::clone, (&provider,), copy),
        call_ensures(IcebergTableProvider::<C>::catalog, (&provider,), catalog),
        call_ensures(IcebergTableProvider::<C>::table_ident, (&provider,), table_ident),
        call_ensures(IcebergTableProvider::<C>::schema, (&provider,), schema),
        call_ensures(IcebergTableProvider::<C>::catalog, (&copy,), copied_catalog),
        call_ensures(IcebergTableProvider::<C>::table_ident, (&copy,), copied_ident),
        call_ensures(IcebergTableProvider::<C>::schema, (&copy,), copied_schema),
    ensures
        *copied_catalog == *catalog,
        *copied_ident == *table_ident,
        copied_schema == schema,
{
}

/// A provider for a metadata table describes the table that was loaded, in the way that was
/// asked for; where none could be loaded, the answer is the catalog's own error.
pub proof fn metadata_tables_describe_the_loaded_table<C: ?Sized>(
    provider: IcebergTableProvider<C>,
    table_type: MetadataTableType,
    loaded: Result<Table, iceberg::Error>,
    described: Result<IcebergMetadataTableProvider, ProviderError>,
)
    requires
        call_ensures(
            IcebergTableProvider::<C>::metadata_table,
            (&provider, table_type, loaded),
            described,
        ),
    ensures
        loaded matches Ok(table) ==> {
            &&& described matches Ok(made)
            &&& made.table == table
            &&& made.table_type == table_type
        },
        loaded matches Err(error) ==> described == Err::<
            IcebergMetadataTableProvider,
            ProviderError,
        >(ProviderError::External(error)),
{
}

/// A static provider of a table is built exactly where the table's current schema has an Arrow
/// equivalent. It then offers that, with the columns of the table under their names and in their
/// order, and reads the table that it was given at whatever snapshot is current there. Else it
/// answers that the data is invalid, with the message of the conversion.
pub proof fn a_static_provider_offers_the_current_schema(
    table: Table,
    built: Result<IcebergStaticTableProvider, ProviderError>,
    held: &Table,
    snapshot_id: Option<i64>,
    schema: Arc<ArrowSchema>,
)
    requires
        call_ensures(IcebergStaticTableProvider::try_new_from_table, (table,), built),
        built matches Ok(provider) ==> {
            &&& call_ensures(IcebergStaticTableProvider::table, (&provider,), held)
            &&& call_ensures(IcebergStaticTableProvider::snapshot_id, (&provider,), snapshot_id)
            &&& call_ensures(IcebergStaticTableProvider::schema, (&provider,), schema)
        },
    ensures
        ({
            let contents = crate::outside::table_contents(table);
            let current = contents.schemas[contents.current_schema_id];
            match crate::outside::arrow_schema_of(current) {
                Ok(arrow) => {
                    let columns = crate::outside::schema_columns(current);
                    let offered = crate::outside::arrow_columns(*schema);
                    &&& built is Ok
                    &&& *held == table
                    &&& snapshot_id is None
                    &&& *schema == arrow
                    &&& offered.len() == columns.len()
                    &&& forall|i: int| #![trigger offered[i]]
                        0 <= i < offered.len() ==> offered[i].name == columns[i].name
                            && offered[i].nullable == !columns[i].required
                },
                Err(message) => {
                    &&& built matches Err(ProviderError::External(cause))
                    &&& crate::outside::error_contents(cause).data_invalid
                    &&& crate::outside::error_contents(cause).message == message
                },
            }
        }),
{
}

/// A static provider of a snapshot that the table has offers the schema that the snapshot names,
/// also where the table has another one by now, and the current schema where the snapshot names
/// none. It reads the table that it was given, at that snapshot. It is built exactly where the
/// table still has that schema and the schema has an Arrow equivalent; else it answers that the
/// data is invalid, with what is wrong.
///
/// `number` is the schema id in decimal.
pub proof fn time_travel_shows_the_schema_of_the_snapshot(
    table: Table,
    snapshot_id: i64,
    built: Result<IcebergStaticTableProvider, ProviderError>,
    held: &Table,
    read_snapshot_id: Option<i64>,
    schema: Arc<ArrowSchema>,
    schema_id: i32,
    number: String,
)
    requires
        crate::outside::table_contents(table).snapshots.contains_key(snapshot_id),
        ({
            let contents = crate::outside::table_contents(table);
            match crate::outside::snapshot_schema_id(contents.snapshots[snapshot_id]) {
                Some(named) => schema_id == named,
                None => schema_id == contents.current_schema_id,
            }
        }),
        call_ensures(crate::text::integer, (schema_id as i64,), number),
        call_ensures(
            IcebergStaticTableProvider::try_new_from_table_snapshot,
            (table, snapshot_id),
            built,
        ),
        built matches Ok(provider) ==> {
            &&& call_ensures(IcebergStaticTableProvider::table, (&provider,), held)
            &&& call_ensures(
                IcebergStaticTableProvider::snapshot_id,
                (&provider,),
                read_snapshot_id,
            )
            &&& call_ensures(IcebergStaticTableProvider::schema, (&provider,), schema)
        },
    ensures
        ({
            let schemas = crate::outside::table_contents(table).schemas;
            let snapshot = crate::outside::table_contents(table).snapshots[snapshot_id];
            if crate::outside::snapshot_schema_id(snapshot) is Some && !schemas.contains_key(
                schema_id,
            ) {
                &&& built matches Err(ProviderError::External(cause))
                &&& crate::outside::error_contents(cause).data_invalid
                &&& crate::outside::error_contents(cause).message == "Schema with id "@ + number@
                    + " not found"@
            } else {
                match crate::outside::arrow_schema_of(schemas[schema_id]) {
                    Ok(arrow) => {
                        let columns = crate::outside::schema_columns(schemas[schema_id]);
                        let offered = crate::outside::arrow_columns(*schema);
                        &&& built is Ok
                        &&& *held == table
                        &&& read_snapshot_id == Some(snapshot_id)
                        &&& *schema == arrow
                        &&& offered.len() == columns.len()
                        &&& forall|i: int| #![trigger offered[i]]
                            0 <= i < offered.len() ==> offered[i].name == columns[i].name
                                && offered[i].nullable == !columns[i].required
                    },
                    Err(message) => {
                        &&& built matches Err(ProviderError::External(cause))
                        &&& crate::outside::error_contents(cause).data_invalid
                        &&& crate::outside::error_contents(cause).message == message
                    },
                }
            }
        }),
{
}

/// A static provider of a snapshot that the table does not have is not built; the answer gives
/// the id of the snapshot, and the name of the table.
///
/// `number` is the snapshot id in decimal.
pub proof fn time_travel_needs_the_snapshot(
    table: Table,
    snapshot_id: i64,
    built: Result<IcebergStaticTableProvider, ProviderError>,
    number: String,
)
    requires
        !crate::outside::table_contents(table).snapshots.contains_key(snapshot_id),
        call_ensures(crate::text::integer, (snapshot_id,), number),
        call_ensures(
            IcebergStaticTableProvider::try_new_from_table_snapshot,
            (table, snapshot_id),
            built,
        ),
    ensures
        built matches Err(ProviderError::Execution(text)) && text@ == "snapshot id "@ + number@
            + " not found in table "@ + crate::outside::table_contents(table).name,
{
}

/// A copy of a static provider has the parts of the provider.
pub proof fn a_static_copy_keeps_the_parts(
    provider: IcebergStaticTableProvider,
    copy: IcebergStaticTableProvider,
    held: &Table,
    snapshot_id: Option<i64>,
    schema: Arc<ArrowSchema>,
    copied_table: &Table,
    copied_snapshot_id: Option<i64>,
    copied_schema: Arc<ArrowSchema>,
)
    requires
        call_ensures(IcebergStaticTableProvider::clone, (&provider,), copy),
        call_ensures(IcebergStaticTableProvider::table, (&provider,), held),
        call_ensures(IcebergStaticTableProvider::snapshot_id, (&provider,), snapshot_id),
        call_ensures(IcebergStaticTableProvider::schema, (&provider,), schema),
        call_ensures(IcebergStaticTableProvider::table, (&copy,), copied_table),
        call_ensures(IcebergStaticTableProvider::snapshot_id, (&copy,), copied_snapshot_id),
        call_ensures(IcebergStaticTableProvider::schema, (&copy,), copied_schema),
    ensures
        *copied_table == *held,
        copied_snapshot_id == snapshot_id,
        copied_schema == schema,
{
}

/// A static provider refuses every insert, of whatever rows, and says what to use in its place.
pub proof fn static_providers_are_read_only<P>(
    provider: IcebergStaticTableProvider,
    input: P,
    insert_op: InsertOp,
    plan: Result<P, ProviderError>,
)
    requires
        call_ensures(
            IcebergStaticTableProvider::insert_into::<P>,
            (&provider, input, insert_op),
            plan,
        ),
    ensures
        plan matches Err(ProviderError::NotImplemented(text)) && text@
            == "Write operations are not supported on IcebergStaticTableProvider. Use IcebergTableProvider with a catalog for write support."@,
{
}

/// Every filter is taken, and of none it is promised that it is heeded in full.
pub proof fn no_filter_is_promised_to_be_exact<F>(filters: &[F], heeded: Vec<FilterPushDown>)
    requires
        call_ensures(crate::provider::push_down_all::<F>, (filters,), heeded),
    ensures
        heeded@.len() == filters@.len(),
        forall|i: int| 0 <= i < heeded@.len() ==> #[trigger] heeded@[i] is Inexact,
{
}

/// Both providers take every filter, and promise of none that it is heeded in full.
pub proof fn every_filter_is_taken_inexactly<C: ?Sized, F>(
    provider: IcebergTableProvider<C>,
    fixed: IcebergStaticTableProvider,
    filters: &[F],
    heeded: Result<Vec<FilterPushDown>, ProviderError>,
)
    requires
        call_ensures(
            IcebergTableProvider::<C>::supports_filters_pushdown::<F>,
            (&provider, filters),
            heeded,
        ) || call_ensures(
            IcebergStaticTableProvider::supports_filters_pushdown::<F>,
            (&fixed, filters),
            heeded,
        ),
    ensures
        heeded matches Ok(list) && list@.len() == filters@.len() && forall|i: int|
            0 <= i < list@.len() ==> #[trigger] list@[i] is Inexact,
{
}

/// Both providers offer an ordinary table.
pub proof fn providers_offer_ordinary_tables<C: ?Sized>(
    provider: IcebergTableProvider<C>,
    fixed: IcebergStaticTableProvider,
    table_type: TableType,
)
    requires
        call_ensures(IcebergTableProvider::<C>::table_type, (&provider,), table_type)
            || call_ensures(IcebergStaticTableProvider::table_type, (&fixed,), table_type),
    ensures
        table_type is Base,
{
}

/// The schema that the query engine sees of a table's schema is its Arrow equivalent, with the
/// same columns; where there is none, the answer is that the data is invalid.
pub proof fn conversions_keep_the_columns(schema: Schema, made: Result<ArrowSchema, ProviderError>)
    requires
        call_ensures(crate::schema::to_arrow, (&schema,), made),
    ensures
        match crate::outside::arrow_schema_of(schema) {
            Ok(arrow) => {
                let columns = crate::outside::schema_columns(schema);
                let offered = crate::outside::arrow_columns(arrow);
                &&& made == Ok::<ArrowSchema, ProviderError>(arrow)
                &&& offered.len() == columns.len()
                &&& forall|i: int| #![trigger offered[i]]
                    0 <= i < offered.len() ==> offered[i].name == columns[i].name
                        && offered[i].nullable == !columns[i].required
            },
            Err(message) => {
                &&& made matches Err(ProviderError::External(cause))
                &&& crate::outside::error_contents(cause).data_invalid
                &&& crate::outside::error_contents(cause).message == message
            },
        },
{
}

} // verus!
