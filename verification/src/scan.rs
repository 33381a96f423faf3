//! Planning a scan of a table.

use std::sync::Arc;

use datafusion::arrow::datatypes::Schema as ArrowSchema;
use iceberg::table::Table;
use vstd::prelude::*;

use crate::error::ProviderError;
use crate::outside::{column_count, column_name, project_schema, ArrowColumn};

verus! {

/// Whether a projection selects columns out of a schema with `count` columns: each position
/// that it lists is one of a column. Without a projection all columns are selected.
pub open spec fn selects_columns(projection: Option<Seq<usize>>, count: nat) -> bool {
    projection matches Some(positions) ==> forall|i: int|
        0 <= i < positions.len() ==> #[trigger] positions[i] < count
}

/// Whether `text` names the first position in a list that is beyond the last of `count` columns.
pub open spec fn names_bad_position(text: Seq<char>, positions: Seq<usize>, count: nat) -> bool {
    exists|i: int|
        {
            &&& 0 <= i < positions.len()
            &&& #[trigger] positions[i] >= count
            &&& forall|j: int| 0 <= j < i ==> #[trigger] positions[j] < count
            &&& text == "project index "@ + crate::text::natural_text(positions[i] as nat)
                + " out of bounds, max field "@ + crate::text::natural_text(count)
        }
}

/// Whether `error` refuses a projection for its first position that is beyond the last of
/// `count` columns.
pub open spec fn refuses_projection(
    error: ProviderError,
    projection: Option<Seq<usize>>,
    count: nat,
) -> bool {
    &&& error matches ProviderError::Arrow(cause)
    &&& projection matches Some(positions)
    &&& crate::outside::schema_error_text(cause) matches Some(text)
    &&& names_bad_position(text, positions, count)
}

/// The columns that a projection selects, in the order in which it lists them.
pub open spec fn selected_columns(
    projection: Option<Seq<usize>>,
    columns: Seq<ArrowColumn>,
) -> Seq<ArrowColumn> {
    match projection {
        None => columns,
        Some(positions) => Seq::new(positions.len(), |i: int| columns[positions[i] as int]),
    }
}

/// The names of columns.
pub open spec fn column_names(columns: Seq<ArrowColumn>) -> Seq<Seq<char>> {
    Seq::new(columns.len(), |i: int| columns[i].name)
}

/// The positions that an optional projection lists.
pub open spec fn optional_positions(projection: Option<&Vec<usize>>) -> Option<Seq<usize>> {
    match projection {
        Some(positions) => Some(positions@),
        None => None,
    }
}

/// What a scan reads.
pub struct TableScanView<F> {
    /// The table that is read.
    pub table: Arc<Table>,
    /// The snapshot that is read; `None` stands for the current one of the table.
    pub snapshot_id: Option<i64>,
    /// The schema of the rows that come out.
    pub schema: ArrowSchema,
    /// The names of the columns to select from the table, in the order of `schema`; `None`
    /// where no columns were singled out.
    pub projection: Option<Seq<Seq<char>>>,
    /// The filters that were pushed down.
    pub filters: Seq<F>,
    /// How many rows are asked for at most.
    pub limit: Option<usize>,
}

impl<F> TableScanView<F> {
    /// Whether this is the scan of the given table and snapshot that a provider with the
    /// schema `schema` plans.
    ///
    /// Without a projection the rows that come out have the provider's schema itself.
    pub open spec fn reads(
        self,
        table: Arc<Table>,
        snapshot_id: Option<i64>,
        schema: ArrowSchema,
        projection: Option<Seq<usize>>,
        filters: Seq<F>,
        limit: Option<usize>,
    ) -> bool {
        let columns = selected_columns(projection, crate::outside::arrow_columns(schema));
        &&& self.table == table
        &&& self.snapshot_id == snapshot_id
        &&& projection is None ==> self.schema == schema
        &&& crate::outside::arrow_columns(self.schema) == columns
        &&& crate::outside::arrow_metadata(self.schema) == crate::outside::arrow_metadata(schema)
        &&& self.projection == (if projection is None {
            None
        } else {
            Some(column_names(columns))
        })
        &&& self.filters == filters
        &&& self.limit == limit
    }
}

/// A planned scan of a table.
#[derive(Debug)]
pub struct IcebergTableScan<F> {
    table: Arc<Table>,
    snapshot_id: Option<i64>,
    schema: Arc<ArrowSchema>,
    projection: Option<Vec<String>>,
    filters: Vec<F>,
    limit: Option<usize>,
}

/// The texts of a list of strings.
pub open spec fn texts(strings: Seq<String>) -> Seq<Seq<char>> {
    Seq::new(strings.len(), |i: int| strings[i]@)
}

impl<F> View for IcebergTableScan<F> {
    type V = TableScanView<F>;

    closed spec fn view(&self) -> TableScanView<F> {
        TableScanView {
            table: self.table,
            snapshot_id: self.snapshot_id,
            schema: *self.schema,
            projection: match self.projection {
                Some(names) => Some(texts(names@)),
                None => None,
            },
            filters: self.filters@,
            limit: self.limit,
        }
    }
}

/// The names of the columns of a schema.
fn names_of(schema: &ArrowSchema) -> (names: Vec<String>)
    ensures
        texts(names@) == column_names(crate::outside::arrow_columns(*schema)),
{
    let count: usize = column_count(schema);
    let mut names: Vec<String> = Vec::new();
    let mut i: usize = 0;
    while i < count
        invariant
            i <= count,
            count == crate::outside::arrow_columns(*schema).len(),
            names@.len() == i,
            forall|j: int| #![trigger names@[j]]
                0 <= j < i ==> names@[j]@ == crate::outside::arrow_columns(*schema)[j].name,
        decreases count - i,
    {
        names.push(column_name(schema, i));
        i = i + 1;
    }
    names
}

impl<F> IcebergTableScan<F> {
    /// Plans a scan of `table` at `snapshot_id`, or at its current snapshot.
    ///
    /// `projection` lists positions in `schema`; the scan selects those columns from the table
    /// by name. A position beyond the last column is refused.
    pub fn new(
        table: Arc<Table>,
        snapshot_id: Option<i64>,
        schema: Arc<ArrowSchema>,
        projection: Option<&Vec<usize>>,
        filters: Vec<F>,
        limit: Option<usize>,
    ) -> (scan: Result<Self, ProviderError>)
        ensures
            scan is Ok <==> selects_columns(
                optional_positions(projection),
                crate::outside::arrow_columns(*schema).len(),
            ),
            scan matches Err(error) ==> refuses_projection(
                error,
                optional_positions(projection),
                crate::outside::arrow_columns(*schema).len(),
            ),
            scan matches Ok(made) ==> made@.reads(
                table,
                snapshot_id,
                *schema,
                optional_positions(projection),
                filters@,
                limit,
            ),
    {
        match projection {
            None => Ok(
                IcebergTableScan { table, snapshot_id, schema, projection: None, filters, limit },
            ),
            Some(positions) => match project_schema(&schema, positions.as_slice()) {
                Err(error) => Err(ProviderError::Arrow(error)),
                Ok(projected) => {
                    let names = names_of(&projected);
                    Ok(
                        IcebergTableScan {
                            table,
                            snapshot_id,
                            schema: Arc::new(projected),
                            projection: Some(names),
                            filters,
                            limit,
                        },
                    )
                },
            },
        }
    }

    /// The table that is read.
    pub fn table(&self) -> (table: &Table)
        ensures
            *table == *self@.table,
    {
        &self.table
    }

    /// The snapshot that is read, or `None` for the current one of the table.
    pub fn snapshot_id(&self) -> (id: Option<i64>)
        ensures
            id == self@.snapshot_id,
    {
        self.snapshot_id
    }

    /// The schema of the rows that come out.
    pub fn schema(&self) -> (schema: Arc<ArrowSchema>)
        ensures
            *schema == self@.schema,
    {
        self.schema.clone()
    }

    /// The names of the columns to select from the table, or `None` for all of them.
    pub fn projection(&self) -> (names: Option<&Vec<String>>)
        ensures
            names is Some <==> self@.projection is Some,
            names matches Some(list) ==> self@.projection == Some(texts(list@)),
    {
        match &self.projection {
            Some(names) => Some(names),
            None => None,
        }
    }

    /// The filters that were pushed down.
    pub fn filters(&self) -> (filters: &Vec<F>)
        ensures
            filters@ == self@.filters,
    {
        &self.filters
    }

    /// How many rows are asked for at most.
    pub fn limit(&self) -> (limit: Option<usize>)
        ensures
            limit == self@.limit,
    {
        self.limit
    }
}

} // verus!
