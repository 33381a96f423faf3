//! The parts of `iceberg`, `arrow` and `std` that the providers build on.
//!
//! Everything in this module is believed rather than proved: the types are opaque, and each
//! function hands its arguments to one function of an outside crate and promises what that
//! function's source shows. The rest of the crate is verified against these promises.

use std::sync::Arc;

use datafusion::arrow::datatypes::{Field, Schema as ArrowSchema};
use datafusion::arrow::error::ArrowError;
use iceberg::inspect::MetadataTableType;
use iceberg::spec::{Schema, Snapshot};
use iceberg::table::Table;
use iceberg::{NamespaceIdent, TableIdent};
use vstd::prelude::*;

verus! {

/// `iceberg::table::Table`: a table as a catalog loads it.
#[verifier::external_type_specification]
#[verifier::external_body]
pub struct ExTable(iceberg::table::Table);

/// `iceberg::spec::Schema`: one of the schemas of a table.
#[verifier::external_type_specification]
#[verifier::external_body]
pub struct ExSchema(iceberg::spec::Schema);

/// `iceberg::spec::Snapshot`: one of the snapshots of a table.
#[verifier::external_type_specification]
#[verifier::external_body]
pub struct ExSnapshot(iceberg::spec::Snapshot);

/// `iceberg::TableIdent`: the namespace and the name of a table.
#[verifier::external_type_specification]
#[verifier::external_body]
pub struct ExTableIdent(iceberg::TableIdent);

/// `iceberg::NamespaceIdent`: the namespace of a table.
#[verifier::external_type_specification]
#[verifier::external_body]
pub struct ExNamespaceIdent(iceberg::NamespaceIdent);

/// `iceberg::inspect::MetadataTableType`: which metadata table of a table is meant.
#[verifier::external_type_specification]
#[verifier::external_body]
pub struct ExMetadataTableType(iceberg::inspect::MetadataTableType);

/// `iceberg::Error`: what a catalog or a schema conversion fails with.
#[verifier::external_type_specification]
#[verifier::external_body]
pub struct ExIcebergError(iceberg::Error);

/// `arrow::datatypes::Schema`: the schema that a query engine sees.
#[verifier::external_type_specification]
#[verifier::external_body]
pub struct ExArrowSchema(datafusion::arrow::datatypes::Schema);

/// `arrow::datatypes::Field`: one column of such a schema.
#[verifier::external_type_specification]
#[verifier::external_body]
pub struct ExField(datafusion::arrow::datatypes::Field);

/// `arrow::error::ArrowError`: what a projection of such a schema fails with.
#[verifier::external_type_specification]
#[verifier::external_body]
pub struct ExArrowError(datafusion::arrow::error::ArrowError);

/// What the providers read of a table.
pub struct TableContents {
    /// The name in the table's identifier.
    pub name: Seq<char>,
    /// The schemas that the table has had, by schema id.
    pub schemas: Map<i32, Schema>,
    /// The id of the schema that the table has now.
    pub current_schema_id: i32,
    /// The snapshots of the table, by snapshot id.
    pub snapshots: Map<i64, Snapshot>,
    /// The id of the snapshot that the table has now; an empty table may have none.
    pub current_snapshot_id: Option<i64>,
    /// For each field of the default partition spec, whether its transform is `void`.
    pub void_partition_fields: Seq<bool>,
    /// The properties of the table.
    pub properties: Map<Seq<char>, Seq<char>>,
}

impl TableContents {
    /// The schema that the table has now.
    pub open spec fn current_schema(self) -> Schema {
        self.schemas[self.current_schema_id]
    }

    /// Whether rows go to different partitions: some field of the default partition spec has
    /// a transform other than `void`.
    pub open spec fn partitioned(self) -> bool {
        exists|i: int|
            0 <= i < self.void_partition_fields.len() && !(#[trigger] self.void_partition_fields[i])
    }

    /// The value of the property `key`, if the table has it.
    pub open spec fn property(self, key: Seq<char>) -> Option<Seq<char>> {
        if self.properties.contains_key(key) {
            Some(self.properties[key])
        } else {
            None
        }
    }

    /// The schema of a snapshot that names the schema `schema_id`, if the table still has it;
    /// a snapshot that names none has the current one.
    pub open spec fn snapshot_schema(self, schema_id: Option<i32>) -> Option<Schema> {
        match schema_id {
            Some(id) => if self.schemas.contains_key(id) {
                Some(self.schemas[id])
            } else {
                None
            },
            None => Some(self.current_schema()),
        }
    }
}

/// A column of a table, as the table's own schema describes it.
pub struct TableColumn {
    /// The name of the column.
    pub name: Seq<char>,
    /// Whether every row has a value in this column.
    pub required: bool,
}

/// A column as the query engine sees it.
pub struct ArrowColumn {
    /// The name of the column.
    pub name: Seq<char>,
    /// Whether a row may lack a value in this column.
    pub nullable: bool,
    /// The column itself, with its type and its metadata.
    pub field: Field,
}

/// Whether `arrow` holds the columns of `columns`: the same names in the same order, each
/// nullable where the column is not required.
pub open spec fn same_columns(columns: Seq<TableColumn>, arrow: Seq<ArrowColumn>) -> bool {
    &&& arrow.len() == columns.len()
    &&& forall|i: int| #![trigger arrow[i]]
        0 <= i < arrow.len() ==> arrow[i].name == columns[i].name && arrow[i].nullable
            == !columns[i].required
}

/// What an error of `iceberg` says. Its context, its source and its backtrace are left out.
pub struct ErrorContents {
    /// Whether its kind is `DataInvalid`.
    pub data_invalid: bool,
    /// Its message.
    pub message: Seq<char>,
}

/// Whether `error` says that the data is invalid, with this message.
pub open spec fn says_invalid_data(error: ErrorContents, message: Seq<char>) -> bool {
    error == (ErrorContents { data_invalid: true, message })
}

/// The message about a schema that a snapshot names and the table does not have.
pub open spec fn lost_schema_text(schema_id: int) -> Seq<char> {
    "Schema with id "@ + crate::text::integer_text(schema_id) + " not found"@
}

/// What an error of `iceberg` says.
pub uninterp spec fn error_contents(error: iceberg::Error) -> ErrorContents;

/// The text of an error of `arrow` that concerns a schema; `None` where it concerns something
/// else.
pub uninterp spec fn schema_error_text(
    error: datafusion::arrow::error::ArrowError,
) -> Option<Seq<char>>;

/// What a table holds.
pub uninterp spec fn table_contents(table: iceberg::table::Table) -> TableContents;

/// The top-level columns of a table's schema.
pub uninterp spec fn schema_columns(schema: iceberg::spec::Schema) -> Seq<TableColumn>;

/// The schema id that a snapshot names.
pub uninterp spec fn snapshot_schema_id(snapshot: iceberg::spec::Snapshot) -> Option<i32>;

/// The namespace and the name in a table identifier.
pub uninterp spec fn ident_parts(ident: iceberg::TableIdent) -> (iceberg::NamespaceIdent, Seq<char>);

/// The top-level columns of a schema that the query engine sees.
pub uninterp spec fn arrow_columns(
    schema: datafusion::arrow::datatypes::Schema,
) -> Seq<ArrowColumn>;

/// The key-value metadata of a schema that the query engine sees.
pub uninterp spec fn arrow_metadata(
    schema: datafusion::arrow::datatypes::Schema,
) -> Map<Seq<char>, Seq<char>>;

/// The schema that `iceberg::arrow::schema_to_arrow_schema` makes of a table's schema, or the
/// message that it gives where it makes none.
pub uninterp spec fn arrow_schema_of(
    schema: iceberg::spec::Schema,
) -> Result<datafusion::arrow::datatypes::Schema, Seq<char>>;

/// The text of the error that `str::parse` gives on a value that is no `bool`.
pub uninterp spec fn bool_parse_error(value: Seq<char>) -> Seq<char>;

/// `TableIdent::new`: an identifier of the given namespace and name.
#[verifier::external_body]
pub(crate) fn new_table_ident(namespace: NamespaceIdent, name: String) -> (ident: TableIdent)
    ensures
        ident_parts(ident) == (namespace, name@),
{
    TableIdent::new(namespace, name)
}

/// `TableMetadata::current_schema`: the schema that the table has now.
///
/// Table metadata is checked when it is made to hold the schema that it names as its current
/// one, so this finds one on every table.
#[verifier::external_body]
pub(crate) fn current_schema(table: &Table) -> (schema: Arc<Schema>)
    ensures
        table_contents(*table).schemas.contains_pair(
            table_contents(*table).current_schema_id,
            *schema,
        ),
{
    table.metadata().current_schema().clone()
}

/// `TableMetadata::current_snapshot_id`: the id of the snapshot that the table has now.
#[verifier::external_body]
pub(crate) fn current_snapshot_id(table: &Table) -> (id: Option<i64>)
    ensures
        id == table_contents(*table).current_snapshot_id,
{
    table.metadata().current_snapshot_id()
}

/// `TableMetadata::snapshot_by_id`: the snapshot with this id, if the table has one.
#[verifier::external_body]
pub(crate) fn snapshot_by_id(table: &Table, snapshot_id: i64) -> (snapshot: Option<Arc<Snapshot>>)
    ensures
        snapshot is None ==> !table_contents(*table).snapshots.contains_key(snapshot_id),
        snapshot matches Some(found) ==> table_contents(*table).snapshots.contains_pair(
            snapshot_id,
            *found,
        ),
{
    table.metadata().snapshot_by_id(snapshot_id).cloned()
}

/// `Snapshot::schema`: the schema that the snapshot names, which the table may have lost, or
/// the table's current one where the snapshot names none.
#[verifier::external_body]
pub(crate) fn snapshot_schema(snapshot: &Snapshot, table: &Table) -> (schema: Result<
    Arc<Schema>,
    iceberg::Error,
>)
    ensures
        schema matches Err(error) ==> {
            &&& table_contents(*table).snapshot_schema(snapshot_schema_id(*snapshot)) is None
            &&& says_invalid_data(
                error_contents(error),
                lost_schema_text(snapshot_schema_id(*snapshot)->Some_0 as int),
            )
        },
        schema matches Ok(found) ==> table_contents(*table).snapshot_schema(
            snapshot_schema_id(*snapshot),
        ) == Some(*found),
{
    snapshot.schema(table.metadata())
}

/// `iceberg::arrow::schema_to_arrow_schema`: the schema that the query engine sees, with the
/// columns of the table's schema under their names and in their order, and without metadata of
/// its own. Some types have no Arrow equivalent, which is invalid data; the result, and the
/// message where there is none, follows from the schema alone.
#[verifier::external_body]
pub(crate) fn schema_to_arrow_schema(schema: &Schema) -> (arrow: Result<
    ArrowSchema,
    iceberg::Error,
>)
    ensures
        arrow matches Err(error) ==> {
            &&& arrow_schema_of(*schema) matches Err(message)
            &&& says_invalid_data(error_contents(error), message)
        },
        arrow matches Ok(made) ==> {
            &&& arrow_schema_of(*schema) == Ok::<ArrowSchema, Seq<char>>(made)
            &&& same_columns(schema_columns(*schema), arrow_columns(made))
            &&& arrow_metadata(made) == Map::<Seq<char>, Seq<char>>::empty()
        },
{
    iceberg::arrow::schema_to_arrow_schema(schema)
}

/// `TableIdent::name` of `Table::identifier`: the name of the table.
#[verifier::external_body]
pub(crate) fn table_name(table: &Table) -> (name: String)
    ensures
        name@ == table_contents(*table).name,
{
    table.identifier().name().to_owned()
}

/// `PartitionSpec::is_unpartitioned` of the table's default partition spec: whether the spec
/// has no field whose transform is other than `void`.
#[verifier::external_body]
pub(crate) fn is_unpartitioned(table: &Table) -> (unpartitioned: bool)
    ensures
        unpartitioned == !table_contents(*table).partitioned(),
{
    table.metadata().default_partition_spec().is_unpartitioned()
}

/// `HashMap::get` of `TableMetadata::properties`: the value of a table property.
#[verifier::external_body]
pub(crate) fn table_property(table: &Table, key: &str) -> (value: Option<String>)
    ensures
        value is None ==> table_contents(*table).property(key@) is None,
        value matches Some(found) ==> table_contents(*table).property(key@) == Some(found@),
{
    table.metadata().properties().get(key).cloned()
}

/// `TableProperties::PROPERTY_DATAFUSION_WRITE_FANOUT_ENABLED`: the key of the property that
/// switches fanout writing on and off.
#[verifier::external_body]
pub(crate) fn fanout_property_key() -> (key: &'static str)
    ensures
        key@ == "write.datafusion.fanout.enabled"@,
{
    iceberg::spec::TableProperties::PROPERTY_DATAFUSION_WRITE_FANOUT_ENABLED
}

/// `TableProperties::PROPERTY_DATAFUSION_WRITE_FANOUT_ENABLED_DEFAULT`: without the property,
/// fanout writing is on.
#[verifier::external_body]
pub(crate) fn fanout_default() -> (enabled: bool)
    ensures
        enabled == true,
{
    iceberg::spec::TableProperties::PROPERTY_DATAFUSION_WRITE_FANOUT_ENABLED_DEFAULT
}

/// `str::parse::<bool>`: `true` and `false` are read as what they say, and nothing else is
/// accepted. The text of the error follows from the value alone; what it says is left unsaid.
#[verifier::external_body]
pub(crate) fn parse_bool(value: &str) -> (parsed: Result<bool, String>)
    ensures
        parsed matches Ok(b) ==> value@ == (if b { "true"@ } else { "false"@ }),
        parsed matches Err(text) ==> value@ != "true"@ && value@ != "false"@ && text@
            == bool_parse_error(value@),
{
    value.parse::<bool>().map_err(|e| e.to_string())
}

/// `arrow::datatypes::Schema::project`: the columns at the given positions, in the order in
/// which the positions come, and the metadata of the whole; it fails on the first position that
/// is beyond the last column, and says which that is.
#[verifier::external_body]
pub(crate) fn project_schema(schema: &ArrowSchema, positions: &[usize]) -> (projected: Result<
    ArrowSchema,
    ArrowError,
>)
    ensures
        projected is Ok <==> crate::scan::selects_columns(
            Some(positions@),
            arrow_columns(*schema).len(),
        ),
        projected matches Err(error) ==> {
            &&& schema_error_text(error) matches Some(text)
            &&& crate::scan::names_bad_position(text, positions@, arrow_columns(*schema).len())
        },
        projected matches Ok(made) ==> {
            &&& arrow_columns(made) == crate::scan::selected_columns(
                Some(positions@),
                arrow_columns(*schema),
            )
            &&& arrow_metadata(made) == arrow_metadata(*schema)
        },
{
    schema.project(positions)
}

/// `Fields::len` of `arrow::datatypes::Schema::fields`: how many columns the schema has.
#[verifier::external_body]
pub(crate) fn column_count(schema: &ArrowSchema) -> (count: usize)
    ensures
        count == arrow_columns(*schema).len(),
{
    schema.fields().len()
}

/// `Field::name` of `arrow::datatypes::Schema::field`: the name of the column at a position.
#[verifier::external_body]
pub(crate) fn column_name(schema: &ArrowSchema, position: usize) -> (name: String)
    requires
        position < arrow_columns(*schema).len(),
    ensures
        name@ == arrow_columns(*schema)[position as int].name,
{
    schema.field(position).name().to_owned()
}

} // verus!
