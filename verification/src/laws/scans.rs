//! What holds of the scans that the providers plan.

use std::sync::Arc;

use datafusion::arrow::datatypes::Schema as ArrowSchema;
use iceberg::table::Table;
use vstd::prelude::*;

use crate::error::ProviderError;
use crate::outside::ArrowColumn;
use crate::provider::IcebergTableProvider;
use crate::scan::IcebergTableScan;
use crate::static_provider::IcebergStaticTableProvider;

verus! {

/// Strings whose texts are the names of columns are as many, and hold name after name.
proof fn same_names(list: Seq<String>, columns: Seq<ArrowColumn>)
    requires
        crate::scan::texts(list) == crate::scan::column_names(columns),
    ensures
        list.len() == columns.len(),
        forall|i: int| #![trigger list[i]]
            0 <= i < list.len() ==> list[i]@ == columns[i].name,
{
    assert(crate::scan::texts(list).len() == list.len());
    assert forall|i: int| #![trigger list[i]] 0 <= i < list.len() implies list[i]@
        == columns[i].name by {
        assert(crate::scan::texts(list)[i] == crate::scan::column_names(columns)[i]);
    }
}

/// A catalog-backed provider scans the table that was loaded, at its current snapshot, with the
/// filters and the limit of the query, whatever columns the query asks for.
pub proof fn catalog_scans_pass_the_query_on<C: ?Sized, F>(
    provider: IcebergTableProvider<C>,
    table: Table,
    projection: Option<&Vec<usize>>,
    filters: Vec<F>,
    limit: Option<usize>,
    scan: IcebergTableScan<F>,
    read: &Table,
    snapshot_id: Option<i64>,
    pushed: &Vec<F>,
    rows: Option<usize>,
)
    requires
        call_ensures(
            IcebergTableProvider::<C>::scan::<F>,
            (&provider, Ok::<Table, iceberg::Error>(table), projection, filters, limit),
            Ok::<IcebergTableScan<F>, ProviderError>(scan),
        ),
        call_ensures(IcebergTableScan::<F>::table, (&scan,), read),
        call_ensures(IcebergTableScan::<F>::snapshot_id, (&scan,), snapshot_id),
        call_ensures(IcebergTableScan::<F>::filters, (&scan,), pushed),
        call_ensures(IcebergTableScan::<F>::limit, (&scan,), rows),
    ensures
        *read == table,
        snapshot_id is None,
        pushed@ == filters@,
        rows == limit,
{
}

/// A static provider scans the table that it holds, at the snapshot that it was built for, with
/// the filters and the limit of the query, whatever columns the query asks for.
pub proof fn static_scans_pass_the_query_on<F>(
    provider: IcebergStaticTableProvider,
    held: &Table,
    held_snapshot_id: Option<i64>,
    projection: Option<&Vec<usize>>,
    filters: Vec<F>,
    limit: Option<usize>,
    scan: IcebergTableScan<F>,
    read: &Table,
    snapshot_id: Option<i64>,
    pushed: &Vec<F>,
    rows: Option<usize>,
)
    requires
        call_ensures(IcebergStaticTableProvider::table, (&provider,), held),
        call_ensures(IcebergStaticTableProvider::snapshot_id, (&provider,), held_snapshot_id),
        call_ensures(
            IcebergStaticTableProvider::scan::<F>,
            (&provider, projection, filters, limit),
            Ok::<IcebergTableScan<F>, ProviderError>(scan),
        ),
        call_ensures(IcebergTableScan::<F>::table, (&scan,), read),
        call_ensures(IcebergTableScan::<F>::snapshot_id, (&scan,), snapshot_id),
        call_ensures(IcebergTableScan::<F>::filters, (&scan,), pushed),
        call_ensures(IcebergTableScan::<F>::limit, (&scan,), rows),
    ensures
        *read == *held,
        snapshot_id == held_snapshot_id,
        pushed@ == filters@,
        rows == limit,
{
}

/// A scan that a catalog-backed provider plans puts out the columns of the provider's schema at
/// the positions that the query lists, in the order of the list, and selects them from the table
/// by their names. Where the query lists none it has the provider's schema itself.
pub proof fn catalog_scans_put_out_the_columns_asked_for<C: ?Sized, F>(
    provider: IcebergTableProvider<C>,
    schema: Arc<ArrowSchema>,
    table: Table,
    projection: Option<&Vec<usize>>,
    filters: Vec<F>,
    limit: Option<usize>,
    scan: IcebergTableScan<F>,
    out: Arc<ArrowSchema>,
    names: Option<&Vec<String>>,
)
    requires
        call_ensures(IcebergTableProvider::<C>::schema, (&provider,), schema),
        call_ensures(
            IcebergTableProvider::<C>::scan::<F>,
            (&provider, Ok::<Table, iceberg::Error>(table), projection, filters, limit),
            Ok::<IcebergTableScan<F>, ProviderError>(scan),
        ),
        call_ensures(IcebergTableScan::<F>::schema, (&scan,), out),
        call_ensures(IcebergTableScan::<F>::projection, (&scan,), names),
    ensures
        projection is None ==> *out == *schema && names is None,
        projection matches Some(positions) ==> {
            let offered = crate::outside::arrow_columns(*schema);
            let columns = crate::outside::arrow_columns(*out);
            &&& columns.len() == positions@.len()
            &&& forall|i: int| #![trigger columns[i]]
                0 <= i < columns.len() ==> columns[i] == offered[positions@[i] as int]
            &&& names matches Some(list)
            &&& list@.len() == positions@.len()
            &&& forall|i: int| #![trigger list@[i]]
                0 <= i < list@.len() ==> list@[i]@ == offered[positions@[i] as int].name
        },
        crate::outside::arrow_metadata(*out) == crate::outside::arrow_metadata(*schema),
{
    if names is Some {
        same_names(names->Some_0@, crate::outside::arrow_columns(scan@.schema));
    }
}

/// A scan that a static provider plans puts out the columns of the provider's schema at the
/// positions that the query lists, in the order of the list, and selects them from the table by
/// their names. Where the query lists none it has the provider's schema itself.
pub proof fn static_scans_put_out_the_columns_asked_for<F>(
    provider: IcebergStaticTableProvider,
    schema: Arc<ArrowSchema>,
    projection: Option<&Vec<usize>>,
    filters: Vec<F>,
    limit: Option<usize>,
    scan: IcebergTableScan<F>,
    out: Arc<ArrowSchema>,
    names: Option<&Vec<String>>,
)
    requires
        call_ensures(IcebergStaticTableProvider::schema, (&provider,), schema),
        call_ensures(
            IcebergStaticTableProvider::scan::<F>,
            (&provider, projection, filters, limit),
            Ok::<IcebergTableScan<F>, ProviderError>(scan),
        ),
        call_ensures(IcebergTableScan::<F>::schema, (&scan,), out),
        call_ensures(IcebergTableScan::<F>::projection, (&scan,), names),
    ensures
        projection is None ==> *out == *schema && names is None,
        projection matches Some(positions) ==> {
            let offered = crate::outside::arrow_columns(*schema);
            let columns = crate::outside::arrow_columns(*out);
            &&& columns.len() == positions@.len()
            &&& forall|i: int| #![trigger columns[i]]
                0 <= i < columns.len() ==> columns[i] == offered[positions@[i] as int]
            &&& names matches Some(list)
            &&& list@.len() == positions@.len()
            &&& forall|i: int| #![trigger list@[i]]
                0 <= i < list@.len() ==> list@[i]@ == offered[positions@[i] as int].name
        },
        crate::outside::arrow_metadata(*out) == crate::outside::arrow_metadata(*schema),
{
    if names is Some {
        same_names(names->Some_0@, crate::outside::arrow_columns(scan@.schema));
    }
}

/// On a table that could be loaded, a catalog-backed provider plans a scan exactly where each
/// position that the query lists is one of a column of its schema. Else it refuses, and names the
/// first position in the list that is not, and the number of columns.
pub proof fn catalog_scans_are_refused_for_a_bad_position<C: ?Sized, F>(
    provider: IcebergTableProvider<C>,
    schema: Arc<ArrowSchema>,
    table: Table,
    projection: Option<&Vec<usize>>,
    filters: Vec<F>,
    limit: Option<usize>,
    scan: Result<IcebergTableScan<F>, ProviderError>,
)
    requires
        call_ensures(IcebergTableProvider::<C>::schema, (&provider,), schema),
        call_ensures(
            IcebergTableProvider::<C>::scan::<F>,
            (&provider, Ok::<Table, iceberg::Error>(table), projection, filters, limit),
            scan,
        ),
    ensures
        ({
            let count = crate::outside::arrow_columns(*schema).len();
            match scan {
                Ok(_) => projection matches Some(positions) ==> forall|i: int|
                    0 <= i < positions@.len() ==> #[trigger] positions@[i] < count,
                Err(error) => {
                    &&& projection matches Some(positions)
                    &&& error matches ProviderError::Arrow(cause)
                    &&& exists|i: int|
                        {
                            &&& 0 <= i < positions@.len()
                            &&& #[trigger] positions@[i] >= count
                            &&& forall|j: int| 0 <= j < i ==> #[trigger] positions@[j] < count
                            &&& crate::outside::schema_error_text(cause) == Some(
                                "project index "@ + crate::text::natural_text(positions@[i] as nat)
                                    + " out of bounds, max field "@ + crate::text::natural_text(
                                    count,
                                ),
                            )
                        }
                },
            }
        }),
{
}

/// A static provider plans a scan exactly where each position that the query lists is one of a
/// column of its schema. Else it refuses, and names the first position in the list that is not,
/// and the number of columns.
pub proof fn static_scans_are_refused_for_a_bad_position<F>(
    provider: IcebergStaticTableProvider,
    schema: Arc<ArrowSchema>,
    projection: Option<&Vec<usize>>,
    filters: Vec<F>,
    limit: Option<usize>,
    scan: Result<IcebergTableScan<F>, ProviderError>,
)
    requires
        call_ensures(IcebergStaticTableProvider::schema, (&provider,), schema),
        call_ensures(
            IcebergStaticTableProvider::scan::<F>,
            (&provider, projection, filters, limit),
            scan,
        ),
    ensures
        ({
            let count = crate::outside::arrow_columns(*schema).len();
            match scan {
                Ok(_) => projection matches Some(positions) ==> forall|i: int|
                    0 <= i < positions@.len() ==> #[trigger] positions@[i] < count,
                Err(error) => {
                    &&& projection matches Some(positions)
                    &&& error matches ProviderError::Arrow(cause)
                    &&& exists|i: int|
                        {
                            &&& 0 <= i < positions@.len()
                            &&& #[trigger] positions@[i] >= count
                            &&& forall|j: int| 0 <= j < i ==> #[trigger] positions@[j] < count
                            &&& crate::outside::schema_error_text(cause) == Some(
                                "project index "@ + crate::text::natural_text(positions@[i] as nat)
                                    + " out of bounds, max field "@ + crate::text::natural_text(
                                    count,
                                ),
                            )
                        }
                },
            }
        }),
{
}

/// A scan of a table that could not be loaded is refused with the catalog's own error.
pub proof fn load_errors_come_through<C: ?Sized, F>(
    provider: IcebergTableProvider<C>,
    error: iceberg::Error,
    projection: Option<&Vec<usize>>,
    filters: Vec<F>,
    limit: Option<usize>,
    scan: Result<IcebergTableScan<F>, ProviderError>,
)
    requires
        call_ensures(
            IcebergTableProvider::<C>::scan::<F>,
            (&provider, Err::<Table, iceberg::Error>(error), projection, filters, limit),
            scan,
        ),
    ensures
        scan == Err::<IcebergTableScan<F>, ProviderError>(ProviderError::External(error)),
{
}

/// Two scans of one table state agree on everything that can be seen of them where they come
/// from a provider and from one that was rebuilt from its catalog, its identifier and its schema.
pub proof fn a_rebuilt_provider_scans_alike<C: ?Sized, F>(
    first: IcebergTableProvider<C>,
    catalog: &Arc<C>,
    table_ident: &iceberg::TableIdent,
    schema: Arc<ArrowSchema>,
    rebuilt: IcebergTableProvider<C>,
    table: Table,
    projection: Option<&Vec<usize>>,
    filters: Vec<F>,
    limit: Option<usize>,
    scan: Result<IcebergTableScan<F>, ProviderError>,
    rescan: Result<IcebergTableScan<F>, ProviderError>,
    out: Arc<ArrowSchema>,
    reout: Arc<ArrowSchema>,
)
    requires
        call_ensures(IcebergTableProvider::<C>::catalog, (&first,), catalog),
        call_ensures(IcebergTableProvider::<C>::table_ident, (&first,), table_ident),
        call_ensures(IcebergTableProvider::<C>::schema, (&first,), schema),
        call_ensures(
            IcebergTableProvider::<C>::new_with_schema,
            (*catalog, *table_ident, schema),
            rebuilt,
        ),
        call_ensures(
            IcebergTableProvider::<C>::scan::<F>,
            (&first, Ok::<Table, iceberg::Error>(table), projection, filters, limit),
            scan,
        ),
        call_ensures(
            IcebergTableProvider::<C>::scan::<F>,
            (&rebuilt, Ok::<Table, iceberg::Error>(table), projection, filters, limit),
            rescan,
        ),
        scan matches Ok(made) ==> call_ensures(IcebergTableScan::<F>::schema, (&made,), out),
        rescan matches Ok(made) ==> call_ensures(IcebergTableScan::<F>::schema, (&made,), reout),
    ensures
        scan is Ok <==> rescan is Ok,
        scan is Ok ==> {
            &&& crate::outside::arrow_columns(*reout) == crate::outside::arrow_columns(*out)
            &&& crate::outside::arrow_metadata(*reout) == crate::outside::arrow_metadata(*out)
        },
{
}

/// A scan made for a table and a snapshot reads just them, with the filters and the limit that it
/// was made with, and puts out the columns of the schema that it was made with at the positions
/// listed, in the order of the list.
pub proof fn a_scan_reads_what_it_was_made_for<F>(
    table: Arc<Table>,
    snapshot_id: Option<i64>,
    schema: Arc<ArrowSchema>,
    projection: Option<&Vec<usize>>,
    filters: Vec<F>,
    limit: Option<usize>,
    scan: IcebergTableScan<F>,
    read: &Table,
    read_snapshot_id: Option<i64>,
    out: Arc<ArrowSchema>,
    names: Option<&Vec<String>>,
    pushed: &Vec<F>,
    rows: Option<usize>,
)
    requires
        call_ensures(
            IcebergTableScan::<F>::new,
            (table, snapshot_id, schema, projection, filters, limit),
            Ok::<IcebergTableScan<F>, ProviderError>(scan),
        ),
        call_ensures(IcebergTableScan::<F>::table, (&scan,), read),
        call_ensures(IcebergTableScan::<F>::snapshot_id, (&scan,), read_snapshot_id),
        call_ensures(IcebergTableScan::<F>::schema, (&scan,), out),
        call_ensures(IcebergTableScan::<F>::projection, (&scan,), names),
        call_ensures(IcebergTableScan::<F>::filters, (&scan,), pushed),
        call_ensures(IcebergTableScan::<F>::limit, (&scan,), rows),
    ensures
        *read == *table,
        read_snapshot_id == snapshot_id,
        pushed@ == filters@,
        rows == limit,
        names is Some <==> projection is Some,
        projection is None ==> *out == *schema,
        crate::outside::arrow_metadata(*out) == crate::outside::arrow_metadata(*schema),
        names matches Some(list) ==> {
            let columns = crate::outside::arrow_columns(*out);
            &&& list@.len() == columns.len()
            &&& forall|i: int| #![trigger list@[i]]
                0 <= i < list@.len() ==> list@[i]@ == columns[i].name
        },
        projection matches Some(positions) ==> {
            let offered = crate::outside::arrow_columns(*schema);
            let columns = crate::outside::arrow_columns(*out);
            &&& columns.len() == positions@.len()
            &&& forall|i: int| #![trigger columns[i]]
                0 <= i < columns.len() ==> columns[i] == offered[positions@[i] as int]
        },
{
    if names is Some {
        same_names(names->Some_0@, crate::outside::arrow_columns(scan@.schema));
    }
}

/// A scan is made exactly where each position listed is one of a column of the schema. Else it is
/// refused, and the answer names the first position in the list that is not, and the number of
/// columns.
pub proof fn a_scan_is_refused_for_a_bad_position<F>(
    table: Arc<Table>,
    snapshot_id: Option<i64>,
    schema: Arc<ArrowSchema>,
    projection: Option<&Vec<usize>>,
    filters: Vec<F>,
    limit: Option<usize>,
    scan: Result<IcebergTableScan<F>, ProviderError>,
)
    requires
        call_ensures(
            IcebergTableScan::<F>::new,
            (table, snapshot_id, schema, projection, filters, limit),
            scan,
        ),
    ensures
        ({
            let count = crate::outside::arrow_columns(*schema).len();
            match scan {
                Ok(_) => projection matches Some(positions) ==> forall|i: int|
                    0 <= i < positions@.len() ==> #[trigger] positions@[i] < count,
                Err(error) => {
                    &&& projection matches Some(positions)
                    &&& error matches ProviderError::Arrow(cause)
                    &&& exists|i: int|
                        {
                            &&& 0 <= i < positions@.len()
                            &&& #[trigger] positions@[i] >= count
                            &&& forall|j: int| 0 <= j < i ==> #[trigger] positions@[j] < count
                            &&& crate::outside::schema_error_text(cause) == Some(
                                "project index "@ + crate::text::natural_text(positions@[i] as nat)
                                    + " out of bounds, max field "@ + crate::text::natural_text(
                                    count,
                                ),
                            )
                        }
                },
            }
        }),
{
}

} // verus!
