//! The providers on tables that `iceberg` loads.

use std::collections::HashMap;
use std::future::Future;
use std::sync::Arc;

use datafusion::arrow::datatypes::{DataType, Schema as ArrowSchema};
use datafusion::arrow::error::ArrowError;
use datafusion::logical_expr::{col, lit, Expr};
use datafusion_iceberg::error::ProviderError;
use datafusion_iceberg::insert::InsertOp;
use datafusion_iceberg::provider::{FilterPushDown, TableType};
use datafusion_iceberg::scan::IcebergTableScan;
use datafusion_iceberg::{IcebergStaticTableProvider, IcebergTableProvider};
use iceberg::inspect::MetadataTableType;
use iceberg::io::FileIO;
use iceberg::memory::{MemoryCatalogBuilder, MEMORY_CATALOG_WAREHOUSE};
use iceberg::spec::{
    FormatVersion, NestedField, PartitionSpec, PrimitiveType, Schema, SortOrder, Type,
};
use iceberg::spec::{TableMetadata, TableMetadataBuilder};
use iceberg::table::{StaticTable, Table};
use iceberg::transaction::{AddColumn, ApplyTransactionAction, Transaction};
use iceberg::{Catalog, CatalogBuilder, ErrorKind, NamespaceIdent, TableCreation, TableIdent};

const TABLE_METADATA: &str = r#"{
  "format-version": 2,
  "table-uuid": "9c12d441-03fe-4693-9a96-a0705ddf69c1",
  "location": "s3://bucket/test/location",
  "last-sequence-number": 34,
  "last-updated-ms": 1602638573590,
  "last-column-id": 3,
  "current-schema-id": 1,
  "schemas": [
    {
      "type": "struct",
      "schema-id": 0,
      "fields": [
        {
          "id": 1,
          "name": "x",
          "required": true,
          "type": "long"
        }
      ]
    },
    {
      "type": "struct",
      "schema-id": 1,
      "identifier-field-ids": [
        1,
        2
      ],
      "fields": [
        {
          "id": 1,
          "name": "x",
          "required": true,
          "type": "long"
        },
        {
          "id": 2,
          "name": "y",
          "required": true,
          "type": "long",
          "doc": "comment"
        },
        {
          "id": 3,
          "name": "z",
          "required": true,
          "type": "long"
        }
      ]
    }
  ],
  "default-spec-id": 0,
  "partition-specs": [
    {
      "spec-id": 0,
      "fields": [
        {
          "name": "x",
          "transform": "identity",
          "source-id": 1,
          "field-id": 1000
        }
      ]
    }
  ],
  "last-partition-id": 1000,
  "default-sort-order-id": 3,
  "sort-orders": [
    {
      "order-id": 3,
      "fields": [
        {
          "transform": "identity",
          "source-id": 2,
          "direction": "asc",
          "null-order": "nulls-first"
        },
        {
          "transform": "bucket[4]",
          "source-id": 3,
          "direction": "desc",
          "null-order": "nulls-last"
        }
      ]
    }
  ],
  "properties": {},
  "current-snapshot-id": 3055729675574597004,
  "snapshots": [
    {
      "snapshot-id": 3051729675574597004,
      "timestamp-ms": 1515100955770,
      "sequence-number": 0,
      "summary": {
        "operation": "append"
      },
      "manifest-list": "s3://a/b/1.avro"
    },
    {
      "snapshot-id": 3055729675574597004,
      "parent-snapshot-id": 3051729675574597004,
      "timestamp-ms": 1555100955770,
      "sequence-number": 1,
      "summary": {
        "operation": "append"
      },
      "manifest-list": "s3://a/b/2.avro",
      "schema-id": 1
    }
  ],
  "snapshot-log": [
    {
      "snapshot-id": 3051729675574597004,
      "timestamp-ms": 1515100955770
    },
    {
      "snapshot-id": 3055729675574597004,
      "timestamp-ms": 1555100955770
    }
  ],
  "metadata-log": []
}"#;

/// Two more snapshots: one that was written with the first schema, and one that names a schema
/// which the table does not have.
const MORE_SNAPSHOTS: &str = r#""snapshots": [
    {
      "snapshot-id": 44,
      "timestamp-ms": 1555100955771,
      "sequence-number": 2,
      "summary": {"operation": "append"},
      "manifest-list": "s3://a/b/3.avro",
      "schema-id": 0
    },
    {
      "snapshot-id": 43,
      "timestamp-ms": 1555100955772,
      "sequence-number": 3,
      "summary": {"operation": "append"},
      "manifest-list": "s3://a/b/4.avro",
      "schema-id": 9
    },"#;

const CURRENT_SNAPSHOT: i64 = 3055729675574597004;

fn run<T>(future: impl Future<Output = T>) -> T {
    tokio::runtime::Builder::new_multi_thread()
        .worker_threads(1)
        .build()
        .unwrap()
        .block_on(future)
}

async fn get_test_table_from_metadata_file() -> Table {
    table_from_metadata(TABLE_METADATA.to_string()).await
}

async fn table_with_more_snapshots() -> Table {
    table_from_metadata(TABLE_METADATA.replace("\"snapshots\": [", MORE_SNAPSHOTS)).await
}

async fn table_from_metadata(metadata: String) -> Table {
    let file_io = FileIO::new_with_memory();
    let path = "memory://table/metadata.json";
    file_io
        .new_output(path)
        .unwrap()
        .write(metadata.into())
        .await
        .unwrap();
    let identifier = TableIdent::from_strs(["static_ns", "static_table"]).unwrap();
    StaticTable::from_metadata_file(path, identifier, file_io)
        .await
        .unwrap()
        .into_table()
}

async fn get_test_catalog_and_table() -> (Arc<dyn Catalog>, NamespaceIdent, String) {
    let catalog = MemoryCatalogBuilder::default()
        .load(
            "memory",
            HashMap::from([(
                MEMORY_CATALOG_WAREHOUSE.to_string(),
                "memory://warehouse".to_string(),
            )]),
        )
        .await
        .unwrap();
    let namespace = NamespaceIdent::new("test_ns".to_string());
    catalog
        .create_namespace(&namespace, HashMap::new())
        .await
        .unwrap();
    let schema = Schema::builder()
        .with_schema_id(0)
        .with_fields(vec![
            NestedField::required(1, "id", Type::Primitive(PrimitiveType::Int)).into(),
            NestedField::required(2, "name", Type::Primitive(PrimitiveType::String)).into(),
        ])
        .build()
        .unwrap();
    let table_creation = TableCreation::builder()
        .name("test_table".to_string())
        .location("memory://warehouse/test_table".to_string())
        .schema(schema)
        .properties(HashMap::new())
        .build();
    catalog
        .create_table(&namespace, table_creation)
        .await
        .unwrap();
    (Arc::new(catalog), namespace, "test_table".to_string())
}

async fn open(
    catalog: Arc<dyn Catalog>,
    namespace: NamespaceIdent,
    name: &str,
) -> Result<IcebergTableProvider<dyn Catalog>, ProviderError> {
    let load = IcebergTableProvider::open(catalog, namespace, name.to_string());
    let loaded = load.catalog.load_table(&load.table_ident).await;
    IcebergTableProvider::try_new(load, loaded)
}

async fn test_provider() -> IcebergTableProvider<dyn Catalog> {
    let (catalog, namespace, name) = get_test_catalog_and_table().await;
    open(catalog, namespace, &name).await.unwrap()
}

/// A table with one column of the given type.
fn table_of(column: PrimitiveType) -> Table {
    let schema = Schema::builder()
        .with_fields(vec![
            NestedField::optional(1, "c", Type::Primitive(column)).into()
        ])
        .build()
        .unwrap();
    let metadata: TableMetadata = TableMetadataBuilder::new(
        schema,
        PartitionSpec::unpartition_spec(),
        SortOrder::unsorted_order(),
        "memory://t".to_string(),
        FormatVersion::V2,
        HashMap::new(),
    )
    .unwrap()
    .build()
    .unwrap()
    .metadata;
    Table::builder()
        .metadata(metadata)
        .identifier(TableIdent::from_strs(["ns", "t"]).unwrap())
        .file_io(FileIO::new_with_memory())
        .runtime(iceberg::Runtime::current())
        .build()
        .unwrap()
}

fn column_names(schema: &ArrowSchema) -> Vec<String> {
    schema.fields().iter().map(|f| f.name().clone()).collect()
}

fn message(error: ProviderError) -> String {
    match error {
        ProviderError::NotImplemented(text)
        | ProviderError::Configuration(text)
        | ProviderError::Execution(text) => text,
        other => panic!("unexpected error: {other:?}"),
    }
}

// The static provider.

#[test]
fn test_static_provider_from_table() {
    run(async {
        let table = get_test_table_from_metadata_file().await;
        let provider = IcebergStaticTableProvider::try_new_from_table(table.clone()).unwrap();
        let scan = provider.scan(None, Vec::<Expr>::new(), None).unwrap();
        let schema = scan.schema();
        let columns = schema.fields();
        assert_eq!(columns.len(), 3);
        let x_column = columns.first().unwrap();
        let column_data = format!(
            "{:?}:{:?}",
            x_column.name(),
            x_column.data_type().to_string()
        );
        assert_eq!(column_data, "\"x\":\"Int64\"");
        assert!(schema.column_with_name("z").is_some());
        assert_eq!(provider.snapshot_id(), None);
        assert_eq!(provider.table().identifier(), table.identifier());
        assert_eq!(provider.schema(), schema);
    });
}

#[test]
fn test_static_provider_from_snapshot() {
    run(async {
        let table = get_test_table_from_metadata_file().await;
        let snapshot_id = table.metadata().snapshots().next().unwrap().snapshot_id();
        let provider = IcebergStaticTableProvider::try_new_from_table_snapshot(
            table.clone(),
            snapshot_id,
        )
        .unwrap();
        let scan = provider.scan(None, Vec::<Expr>::new(), None).unwrap();
        let schema = scan.schema();
        let columns = schema.fields();
        assert_eq!(columns.len(), 3);
        let x_column = columns.first().unwrap();
        let column_data = format!(
            "{:?}:{:?}",
            x_column.name(),
            x_column.data_type().to_string()
        );
        assert_eq!(column_data, "\"x\":\"Int64\"");
        assert!(schema.column_with_name("z").is_some());
        assert_eq!(provider.snapshot_id(), Some(snapshot_id));
        assert_eq!(scan.snapshot_id(), Some(snapshot_id));
        assert_eq!(provider.schema(), schema);
    });
}

#[test]
fn a_snapshot_shows_the_schema_it_was_written_with() {
    run(async {
        let table = table_with_more_snapshots().await;
        let first = IcebergStaticTableProvider::try_new_from_table_snapshot(table, 44).unwrap();
        assert_eq!(column_names(&first.schema()), vec!["x"]);
    });
}

#[test]
fn a_snapshot_without_a_schema_shows_the_current_one() {
    run(async {
        let table = get_test_table_from_metadata_file().await;
        let now = IcebergStaticTableProvider::try_new_from_table(table.clone()).unwrap();
        let then =
            IcebergStaticTableProvider::try_new_from_table_snapshot(table, 3051729675574597004)
                .unwrap();
        assert_eq!(then.schema(), now.schema());
        assert_eq!(then.snapshot_id(), Some(3051729675574597004));
    });
}

#[test]
fn an_absent_snapshot_is_refused() {
    run(async {
        let table = get_test_table_from_metadata_file().await;
        let error =
            IcebergStaticTableProvider::try_new_from_table_snapshot(table, -12).unwrap_err();
        assert!(matches!(error, ProviderError::Execution(_)));
        assert_eq!(
            message(error),
            "snapshot id -12 not found in table static_table"
        );
    });
}

#[test]
fn a_snapshot_whose_schema_is_lost_is_refused() {
    run(async {
        let table = table_with_more_snapshots().await;
        let error = IcebergStaticTableProvider::try_new_from_table_snapshot(table, 43).unwrap_err();
        match error {
            ProviderError::External(error) => {
                assert_eq!(error.kind(), ErrorKind::DataInvalid);
                assert_eq!(error.message(), "Schema with id 9 not found");
            }
            other => panic!("unexpected error: {other:?}"),
        }
    });
}

#[test]
fn a_schema_without_an_arrow_equivalent_is_refused() {
    run(async {
        let column = PrimitiveType::Decimal {
            precision: 60,
            scale: 2,
        };
        let table = table_of(column);
        let error = IcebergStaticTableProvider::try_new_from_table(table.clone()).unwrap_err();
        assert!(matches!(
            error,
            ProviderError::External(error) if error.kind() == ErrorKind::DataInvalid
        ));

        let (catalog, namespace, _) = get_test_catalog_and_table().await;
        let load = IcebergTableProvider::open(catalog, namespace, "t".to_string());
        let error = IcebergTableProvider::try_new(load, Ok(table)).unwrap_err();
        assert!(matches!(error, ProviderError::External(_)));
    });
}

#[test]
fn columns_become_nullable_where_they_are_not_required() {
    run(async {
        let optional = IcebergStaticTableProvider::try_new_from_table(table_of(PrimitiveType::Date))
            .unwrap()
            .schema();
        assert_eq!(optional.field(0).name(), "c");
        assert_eq!(optional.field(0).data_type(), &DataType::Date32);
        assert!(optional.field(0).is_nullable());

        let table = get_test_table_from_metadata_file().await;
        let required = IcebergStaticTableProvider::try_new_from_table(table)
            .unwrap()
            .schema();
        assert!(!required.field(0).is_nullable());
    });
}

#[test]
fn test_static_provider_rejects_writes() {
    run(async {
        let table = get_test_table_from_metadata_file().await;
        let provider = IcebergStaticTableProvider::try_new_from_table(table).unwrap();
        for insert_op in [InsertOp::Append, InsertOp::Overwrite, InsertOp::Replace] {
            let result = provider.insert_into("rows", insert_op);
            assert!(result.is_err());
            let error = result.unwrap_err();
            assert!(matches!(error, ProviderError::NotImplemented(_)));
            assert_eq!(
                message(error),
                "Write operations are not supported on IcebergStaticTableProvider. \
                 Use IcebergTableProvider with a catalog for write support."
            );
        }
    });
}

#[test]
fn test_static_provider_scan() {
    run(async {
        let table = get_test_table_from_metadata_file().await;
        let provider = IcebergStaticTableProvider::try_new_from_table(table).unwrap();
        let scan = provider.scan(Some(&vec![]), Vec::<Expr>::new(), None);
        assert!(scan.is_ok());
        let scan = scan.unwrap();
        assert_eq!(scan.schema().fields().len(), 0);
        assert_eq!(scan.projection().unwrap().len(), 0);
        assert_eq!(scan.table().identifier().name(), "static_table");
    });
}

#[test]
fn a_clone_of_a_static_provider_is_the_same_provider() {
    run(async {
        let table = get_test_table_from_metadata_file().await;
        let provider =
            IcebergStaticTableProvider::try_new_from_table_snapshot(table, CURRENT_SNAPSHOT)
                .unwrap();
        let copy = provider.clone();
        assert_eq!(copy.snapshot_id(), provider.snapshot_id());
        assert_eq!(copy.schema(), provider.schema());
        assert_eq!(copy.table().metadata(), provider.table().metadata());
        assert_eq!(copy.table_type(), TableType::Base);
    });
}

// The catalog-backed provider.

#[test]
fn test_catalog_backed_provider_creation() {
    run(async {
        let (catalog, namespace, table_name) = get_test_catalog_and_table().await;
        let provider = open(catalog.clone(), namespace.clone(), &table_name)
            .await
            .unwrap();
        let schema = provider.schema();
        assert_eq!(schema.fields().len(), 2);
        assert_eq!(schema.field(0).name(), "id");
        assert_eq!(schema.field(1).name(), "name");
        assert_eq!(
            provider.table_ident(),
            &TableIdent::new(namespace, table_name)
        );
        assert!(Arc::ptr_eq(provider.catalog(), &catalog));
        assert_eq!(provider.table_type(), TableType::Base);
    });
}

#[test]
fn an_absent_table_is_refused() {
    run(async {
        let (catalog, namespace, _) = get_test_catalog_and_table().await;
        let error = open(catalog, namespace, "nowhere").await.unwrap_err();
        match error {
            ProviderError::External(error) => assert_eq!(error.kind(), ErrorKind::TableNotFound),
            other => panic!("unexpected error: {other:?}"),
        }
    });
}

#[test]
fn operations_fail_where_the_table_has_gone() {
    run(async {
        let provider = test_provider().await;
        provider
            .catalog()
            .drop_table(provider.table_ident())
            .await
            .unwrap();
        let gone = provider.catalog().load_table(provider.table_ident()).await;
        let scan = provider.scan(gone, Some(&vec![7]), Vec::<Expr>::new(), None);
        assert!(matches!(scan, Err(ProviderError::External(_))));
        let gone = provider.catalog().load_table(provider.table_ident()).await;
        let metadata = provider.metadata_table(MetadataTableType::Manifests, gone);
        assert!(matches!(metadata, Err(ProviderError::External(_))));
        let gone = provider.catalog().load_table(provider.table_ident()).await;
        let request = provider.insert_into(0, "rows", InsertOp::Append).unwrap();
        let planning = request.table_loaded(gone);
        assert!(matches!(planning, Err(ProviderError::External(_))));
    });
}

#[test]
fn test_catalog_backed_provider_scan() {
    run(async {
        let provider = test_provider().await;
        let loaded = provider.catalog().load_table(provider.table_ident()).await;
        let scan = provider.scan(loaded, None, Vec::<Expr>::new(), None);
        assert!(scan.is_ok());
        let schema = scan.unwrap().schema();
        assert_eq!(schema.fields().len(), 2);
        assert_eq!(schema.field(0).name(), "id");
        assert_eq!(schema.field(1).name(), "name");
    });
}

#[test]
fn test_physical_input_schema_consistent_with_logical_input_schema() {
    run(async {
        let provider = test_provider().await;
        let logical_schema = provider.schema();
        let loaded = provider.catalog().load_table(provider.table_ident()).await;
        let scan = provider
            .scan(loaded, Some(&vec![0, 1]), Vec::<Expr>::new(), None)
            .unwrap();
        let physical_schema = scan.schema();
        assert_eq!(
            logical_schema.fields().len(),
            physical_schema.fields().len()
        );
        for (logical_field, physical_field) in logical_schema
            .fields()
            .iter()
            .zip(physical_schema.fields().iter())
        {
            assert_eq!(logical_field.name(), physical_field.name());
            assert_eq!(logical_field.data_type(), physical_field.data_type());
        }
        assert_eq!(
            scan.projection().unwrap(),
            &vec!["id".to_string(), "name".to_string()]
        );
    });
}

#[test]
fn a_projection_selects_in_its_own_order() {
    run(async {
        let provider = test_provider().await;
        let loaded = provider.catalog().load_table(provider.table_ident()).await;
        let scan = provider
            .scan(loaded, Some(&vec![1, 0, 1]), Vec::<Expr>::new(), None)
            .unwrap();
        assert_eq!(column_names(&scan.schema()), vec!["name", "id", "name"]);
        assert_eq!(scan.projection().unwrap(), &vec!["name", "id", "name"]);
        assert_eq!(scan.schema().field(0).data_type(), &DataType::Utf8);
        assert_eq!(scan.schema().field(1), provider.schema().field(0));
        assert_eq!(scan.snapshot_id(), None);
    });
}

#[test]
fn test_limit_pushdown_static_provider() {
    run(async {
        let table = get_test_table_from_metadata_file().await;
        let provider = IcebergStaticTableProvider::try_new_from_table(table).unwrap();
        let scan = provider
            .scan(None, Vec::<Expr>::new(), Some(10))
            .unwrap();
        assert_eq!(
            scan.limit(),
            Some(10),
            "Limit should be set to 10 in the scan plan"
        );
    });
}

#[test]
fn test_limit_pushdown_catalog_backed_provider() {
    run(async {
        let provider = test_provider().await;
        let loaded = provider.catalog().load_table(provider.table_ident()).await;
        let scan = provider
            .scan(loaded, None, Vec::<Expr>::new(), Some(5))
            .unwrap();
        assert_eq!(
            scan.limit(),
            Some(5),
            "Limit should be set to 5 in the scan plan"
        );
    });
}

#[test]
fn test_no_limit_pushdown() {
    run(async {
        let table = get_test_table_from_metadata_file().await;
        let provider = IcebergStaticTableProvider::try_new_from_table(table).unwrap();
        let scan = provider.scan(None, Vec::<Expr>::new(), None).unwrap();
        assert_eq!(
            scan.limit(),
            None,
            "Limit should be None when not specified"
        );
    });
}

#[test]
fn test_scan_rejects_out_of_range_projection() {
    run(async {
        let table = get_test_table_from_metadata_file().await;
        let provider = IcebergStaticTableProvider::try_new_from_table(table.clone()).unwrap();
        let schema = provider.schema();
        let out_of_range = schema.fields().len();

        let result = IcebergTableScan::new(
            Arc::new(table),
            None,
            schema,
            Some(&vec![0, out_of_range]),
            Vec::<Expr>::new(),
            None,
        );
        assert!(result.is_err());
        match result {
            Err(ProviderError::Arrow(ArrowError::SchemaError(text))) => {
                assert_eq!(text, "project index 3 out of bounds, max field 3")
            }
            other => panic!("unexpected result: {other:?}"),
        }
    });
}

#[test]
fn every_filter_is_taken_inexactly() {
    run(async {
        let filters = vec![col("id").eq(lit(1)), col("name").is_null()];
        let provider = test_provider().await;
        assert_eq!(
            provider.supports_filters_pushdown(&filters).unwrap(),
            vec![FilterPushDown::Inexact, FilterPushDown::Inexact]
        );
        assert_eq!(
            provider
                .supports_filters_pushdown(&Vec::<Expr>::new())
                .unwrap(),
            vec![]
        );

        let table = get_test_table_from_metadata_file().await;
        let fixed = IcebergStaticTableProvider::try_new_from_table(table).unwrap();
        assert_eq!(
            fixed.supports_filters_pushdown(&filters).unwrap(),
            vec![FilterPushDown::Inexact; 2]
        );
        let scan = fixed.scan(None, filters.clone(), None).unwrap();
        assert_eq!(scan.filters(), &filters);
    });
}

#[test]
fn metadata_tables_are_of_the_table_as_loaded() {
    run(async {
        let provider = test_provider().await;
        let loaded = provider.catalog().load_table(provider.table_ident()).await;
        let metadata = provider
            .metadata_table(MetadataTableType::Snapshots, loaded)
            .unwrap();
        assert_eq!(metadata.table_type.as_str(), "snapshots");
        assert_eq!(metadata.table.identifier(), provider.table_ident());
    });
}

#[test]
fn providers_of_one_table_agree_on_its_schema() {
    run(async {
        let provider = test_provider().await;
        let table = provider
            .catalog()
            .load_table(provider.table_ident())
            .await
            .unwrap();
        let fixed = IcebergStaticTableProvider::try_new_from_table(table).unwrap();
        assert_eq!(fixed.schema(), provider.schema());
    });
}

#[test]
fn test_provider_rebuilt_with_schema_plans_like_the_original() {
    run(async {
        let original = test_provider().await;
        let catalog = original.catalog().clone();

        // The schema changes after the first provider was built.
        let table = catalog.load_table(original.table_ident()).await.unwrap();
        let tx = Transaction::new(&table);
        let tx = tx
            .update_schema()
            .add_column(AddColumn::optional(
                "email",
                Type::Primitive(PrimitiveType::String),
            ))
            .apply(tx)
            .unwrap();
        tx.commit(catalog.as_ref()).await.unwrap();

        let rebuilt = IcebergTableProvider::new_with_schema(
            catalog.clone(),
            original.table_ident().clone(),
            original.schema(),
        );
        assert_eq!(rebuilt.schema(), original.schema());
        assert!(Arc::ptr_eq(rebuilt.catalog(), original.catalog()));

        let projection = vec![0, 1];
        let loaded = catalog.load_table(original.table_ident()).await;
        let expected = original
            .scan(loaded, Some(&projection), Vec::<Expr>::new(), None)
            .unwrap();
        let loaded = catalog.load_table(rebuilt.table_ident()).await;
        let actual = rebuilt
            .scan(loaded, Some(&projection), Vec::<Expr>::new(), None)
            .unwrap();
        assert_eq!(actual.schema(), expected.schema());
        assert_eq!(actual.projection(), expected.projection());
        assert_eq!(actual.table().metadata(), expected.table().metadata());
        assert_eq!(column_names(&actual.schema()), vec!["id", "name"]);

        // The scan still sees the table as it is now.
        let current = actual.table().metadata().current_schema();
        assert!(current.field_by_name("email").is_some());
        let reopened = open(
            catalog,
            original.table_ident().namespace().clone(),
            original.table_ident().name(),
        )
        .await
        .unwrap();
        assert_eq!(reopened.schema().fields().len(), 3);
        assert_eq!(reopened.clone().schema(), reopened.schema());
    });
}
