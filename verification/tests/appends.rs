//! Planning appends to tables that `iceberg` builds, and committing them.

use std::collections::HashMap;
use std::future::Future;
use std::sync::Arc;

use datafusion::arrow::datatypes::Schema as ArrowSchema;
use datafusion::logical_expr::dml::InsertOp as EngineOp;
use datafusion_iceberg::commit::{CommitDecision, CommittedSnapshot, IcebergCommitExec};
use datafusion_iceberg::error::{snapshot_not_found, ProviderError};
use datafusion_iceberg::insert::{
    check_insert_op, fanout_enabled, invalid_fanout, schedule_insert, InsertAction, InsertError, InsertOp,
    InsertProgress, InsertStage,
};
use datafusion_iceberg::text::integer;
use datafusion_iceberg::IcebergTableProvider;
use iceberg::io::FileIO;
use iceberg::memory::{MemoryCatalogBuilder, MEMORY_CATALOG_WAREHOUSE};
use iceberg::spec::{
    FormatVersion, NestedField, Operation, PrimitiveType, Schema, Snapshot, SortOrder, Summary,
    TableMetadataBuilder, TableProperties, Transform, Type, UnboundPartitionSpec, MAIN_BRANCH,
};
use iceberg::table::Table;
use iceberg::{Catalog, CatalogBuilder, NamespaceIdent, TableCreation, TableIdent};

/// A plan, as far as these tests look at it.
#[derive(Debug)]
enum Plan {
    Empty,
    Project(Box<Plan>, TableIdent),
    Repartition(Box<Plan>, TableIdent, usize),
    Sort(Box<Plan>),
    Write(Box<Plan>, TableIdent),
    Coalesce(Box<Plan>),
    Commit(Box<IcebergCommitExec<dyn Catalog, Plan>>),
}

impl Plan {
    fn name(&self) -> &'static str {
        match self {
            Plan::Empty => "EmptyExec",
            Plan::Project(..) => "ProjectionExec",
            Plan::Repartition(..) => "RepartitionExec",
            Plan::Sort(..) => "SortExec",
            Plan::Write(..) => "IcebergWriteExec",
            Plan::Coalesce(..) => "CoalescePartitionsExec",
            Plan::Commit(..) => "IcebergCommitExec",
        }
    }

    fn child(&self) -> Option<&Plan> {
        match self {
            Plan::Empty => None,
            Plan::Project(input, _)
            | Plan::Repartition(input, _, _)
            | Plan::Sort(input)
            | Plan::Write(input, _)
            | Plan::Coalesce(input) => Some(input),
            Plan::Commit(commit) => Some(commit.input()),
        }
    }

    /// The names of the operators, from the bottom up.
    fn names(&self) -> Vec<&'static str> {
        let mut names = match self.child() {
            Some(child) => child.names(),
            None => vec![],
        };
        names.push(self.name());
        names
    }
}

fn plan_contains_sort(plan: &Plan) -> bool {
    plan.name() == "SortExec" || plan.child().map_or(false, plan_contains_sort)
}

fn run<T>(future: impl Future<Output = T>) -> T {
    tokio::runtime::Builder::new_multi_thread()
        .worker_threads(1)
        .build()
        .unwrap()
        .block_on(future)
}

fn perform(action: InsertAction<dyn Catalog, Plan>, commit_id: &str) -> Plan {
    match action {
        InsertAction::ProjectWithPartition { input, table } => {
            Plan::Project(Box::new(input), table.identifier().clone())
        }
        InsertAction::Repartition {
            input,
            table,
            target_partitions,
        } => Plan::Repartition(Box::new(input), table.identifier().clone(), target_partitions),
        InsertAction::SortByPartition { input } => Plan::Sort(Box::new(input)),
        InsertAction::Write { input, table } => {
            Plan::Write(Box::new(input), table.identifier().clone())
        }
        InsertAction::CoalescePartitions { input } => Plan::Coalesce(Box::new(input)),
        InsertAction::Commit {
            input,
            table,
            catalog,
            schema,
        } => Plan::Commit(Box::new(IcebergCommitExec::new(
            table,
            catalog,
            input,
            schema,
            commit_id.to_string(),
        ))),
    }
}

/// Plans an append on `table`; the action named by `broken` cannot be performed.
fn plan_append_on(
    provider: &IcebergTableProvider<dyn Catalog>,
    table: Table,
    target_partitions: usize,
    commit_id: &str,
    broken: Option<&'static str>,
) -> Result<Plan, InsertError<&'static str>> {
    let request = provider
        .insert_into(target_partitions, Plan::Empty, InsertOp::Append)
        .map_err(InsertError::Provider)?;
    assert_eq!(request.table_ident(), provider.table_ident());
    assert!(Arc::ptr_eq(request.catalog(), provider.catalog()));
    let mut progress = request
        .table_loaded(Ok(table))
        .map_err(InsertError::Provider)?;
    loop {
        match progress {
            InsertProgress::Done(plan) => return Ok(plan),
            InsertProgress::Next(planning, action) => {
                let plan = perform(action, commit_id);
                let result = if broken == Some(plan.name()) {
                    Err(plan.name())
                } else {
                    Ok(plan)
                };
                progress = planning.planned(result)?;
            }
        }
    }
}

async fn plan_append(provider: &IcebergTableProvider<dyn Catalog>, commit_id: &str) -> Plan {
    let table = provider
        .catalog()
        .load_table(provider.table_ident())
        .await
        .unwrap();
    plan_append_on(provider, table, 4, commit_id, None).unwrap()
}

async fn new_catalog() -> (Arc<dyn Catalog>, NamespaceIdent) {
    let catalog = MemoryCatalogBuilder::default()
        .load(
            "memory",
            HashMap::from([(
                MEMORY_CATALOG_WAREHOUSE.to_string(),
                "memory://warehouse".to_string(),
            )]),
        )
        .await
        .unwrap();
    let namespace = NamespaceIdent::new("test_ns".to_string());
    catalog
        .create_namespace(&namespace, HashMap::new())
        .await
        .unwrap();
    (Arc::new(catalog), namespace)
}

fn test_schema(second: &str) -> Schema {
    Schema::builder()
        .with_schema_id(0)
        .with_fields(vec![
            NestedField::required(1, "id", Type::Primitive(PrimitiveType::Int)).into(),
            NestedField::required(2, second, Type::Primitive(PrimitiveType::String)).into(),
        ])
        .build()
        .unwrap()
}

fn spec_by_category(name: &str, transform: Transform) -> UnboundPartitionSpec {
    UnboundPartitionSpec::builder()
        .with_spec_id(0)
        .add_partition_field(2, name, transform)
        .unwrap()
        .build()
}

async fn provider_of(
    catalog: Arc<dyn Catalog>,
    namespace: NamespaceIdent,
    name: &str,
) -> IcebergTableProvider<dyn Catalog> {
    let load = IcebergTableProvider::open(catalog, namespace, name.to_string());
    let loaded = load.catalog.load_table(&load.table_ident).await;
    IcebergTableProvider::try_new(load, loaded).unwrap()
}

async fn test_provider() -> IcebergTableProvider<dyn Catalog> {
    let (catalog, namespace) = new_catalog().await;
    let creation = TableCreation::builder()
        .name("test_table".to_string())
        .location("memory://warehouse/test_table".to_string())
        .schema(test_schema("name"))
        .properties(HashMap::new())
        .build();
    catalog.create_table(&namespace, creation).await.unwrap();
    provider_of(catalog, namespace, "test_table").await
}

async fn partitioned_provider(fanout_enabled: Option<bool>) -> IcebergTableProvider<dyn Catalog> {
    let (catalog, namespace) = new_catalog().await;
    let mut properties = HashMap::new();
    if let Some(enabled) = fanout_enabled {
        properties.insert(
            TableProperties::PROPERTY_DATAFUSION_WRITE_FANOUT_ENABLED.to_string(),
            enabled.to_string(),
        );
    }
    let creation = TableCreation::builder()
        .name("partitioned_table".to_string())
        .location("memory://warehouse/partitioned_table".to_string())
        .schema(test_schema("category"))
        .partition_spec(spec_by_category("category", Transform::Identity))
        .properties(properties)
        .build();
    catalog.create_table(&namespace, creation).await.unwrap();
    provider_of(catalog, namespace, "partitioned_table").await
}

/// A table that no catalog has loaded.
fn table_with(transform: Option<Transform>, fanout: Option<&str>, snapshot: Option<i64>) -> Table {
    let spec = match transform {
        Some(transform) => spec_by_category("by_category", transform),
        None => UnboundPartitionSpec::builder().with_spec_id(0).build(),
    };
    let mut properties = HashMap::new();
    if let Some(value) = fanout {
        properties.insert(
            "write.datafusion.fanout.enabled".to_string(),
            value.to_string(),
        );
    }
    let mut builder = TableMetadataBuilder::new(
        test_schema("category"),
        spec,
        SortOrder::unsorted_order(),
        "memory://t".to_string(),
        FormatVersion::V2,
        properties,
    )
    .unwrap();
    if let Some(id) = snapshot {
        let snapshot = Snapshot::builder()
            .with_snapshot_id(id)
            .with_sequence_number(1)
            .with_timestamp_ms(1_900_000_000_000)
            .with_manifest_list("memory://t/1.avro")
            .with_summary(Summary {
                operation: Operation::Append,
                additional_properties: HashMap::new(),
            })
            .with_schema_id(0)
            .build();
        builder = builder.set_branch_snapshot(snapshot, MAIN_BRANCH).unwrap();
    }
    Table::builder()
        .metadata(builder.build().unwrap().metadata)
        .identifier(TableIdent::from_strs(["ns", "t"]).unwrap())
        .file_io(FileIO::new_with_memory())
        .runtime(iceberg::Runtime::current())
        .build()
        .unwrap()
}

fn configuration_text<T: std::fmt::Debug, E: std::fmt::Debug>(
    result: Result<T, InsertError<E>>,
) -> String {
    match result {
        Err(InsertError::Provider(ProviderError::Configuration(text))) => text,
        other => panic!("unexpected result: {other:?}"),
    }
}

#[test]
fn test_catalog_backed_provider_insert() {
    run(async {
        let provider = test_provider().await;
        let result = provider.insert_into(4, Plan::Empty, InsertOp::Append);
        assert!(result.is_ok());
        let table = provider
            .catalog()
            .load_table(provider.table_ident())
            .await
            .unwrap();
        let planned = plan_append_on(&provider, table, 4, "a", None);
        assert!(planned.is_ok());
        assert_eq!(
            planned.unwrap().names(),
            vec![
                "EmptyExec",
                "RepartitionExec",
                "IcebergWriteExec",
                "CoalescePartitionsExec",
                "IcebergCommitExec"
            ]
        );
    });
}

#[test]
fn test_catalog_backed_provider_rejects_non_append_op() {
    run(async {
        let provider = test_provider().await;
        for (insert_op, expected_message) in [
            (
                InsertOp::Overwrite,
                "IcebergTableProvider supports only append inserts, got Insert Overwrite",
            ),
            (
                InsertOp::Replace,
                "IcebergTableProvider supports only append inserts, got Replace Into",
            ),
        ] {
            match provider.insert_into(4, Plan::Empty, insert_op) {
                Err(ProviderError::NotImplemented(message)) => {
                    assert_eq!(message, expected_message)
                }
                Err(error) => panic!("unexpected error: {error:?}"),
                Ok(_) => panic!("non-append inserts should be rejected"),
            }
        }
    });
}

#[test]
fn operations_are_named_as_the_engine_names_them() {
    assert_eq!(InsertOp::Append.name(), EngineOp::Append.name());
    assert_eq!(InsertOp::Overwrite.name(), EngineOp::Overwrite.name());
    assert_eq!(InsertOp::Replace.name(), EngineOp::Replace.name());
    assert!(check_insert_op(InsertOp::Append).is_ok());
    assert!(check_insert_op(InsertOp::Replace).is_err());
}

#[test]
fn test_insert_plan_fanout_enabled_no_sort() {
    run(async {
        let provider = partitioned_provider(Some(true)).await;
        let insert_plan = plan_append(&provider, "a").await;
        assert!(
            !plan_contains_sort(&insert_plan),
            "Plan should NOT contain SortExec when fanout is enabled"
        );
        assert_eq!(insert_plan.names()[1], "ProjectionExec");

        // Without the property fanout is enabled too.
        let provider = partitioned_provider(None).await;
        assert!(!plan_contains_sort(&plan_append(&provider, "a").await));
    });
}

#[test]
fn test_insert_plan_fanout_disabled_has_sort() {
    run(async {
        let provider = partitioned_provider(Some(false)).await;
        let insert_plan = plan_append(&provider, "a").await;
        assert!(
            plan_contains_sort(&insert_plan),
            "Plan should contain SortExec when fanout is disabled"
        );
        assert_eq!(
            insert_plan.names(),
            vec![
                "EmptyExec",
                "ProjectionExec",
                "RepartitionExec",
                "SortExec",
                "IcebergWriteExec",
                "CoalescePartitionsExec",
                "IcebergCommitExec"
            ]
        );
    });
}

#[test]
fn actions_name_the_loaded_table_and_the_sessions_partitions() {
    run(async {
        let provider = partitioned_provider(Some(true)).await;
        let table = table_with(Some(Transform::Identity), None, None);
        let ident = table.identifier().clone();
        let plan = plan_append_on(&provider, table, 7, "a", None).unwrap();
        let commit = match plan {
            Plan::Commit(commit) => commit,
            other => panic!("unexpected plan: {other:?}"),
        };
        assert_eq!(commit.table().identifier(), &ident);
        let written = commit.input().child().unwrap();
        match written {
            Plan::Write(input, table) => {
                assert_eq!(table, &ident);
                match input.as_ref() {
                    Plan::Repartition(input, table, partitions) => {
                        assert_eq!(table, &ident);
                        assert_eq!(*partitions, 7);
                        match input.as_ref() {
                            Plan::Project(_, table) => assert_eq!(table, &ident),
                            other => panic!("unexpected plan: {other:?}"),
                        }
                    }
                    other => panic!("unexpected plan: {other:?}"),
                }
            }
            other => panic!("unexpected plan: {other:?}"),
        }
    });
}

#[test]
fn void_partition_fields_do_not_partition_a_table() {
    run(async {
        let provider = test_provider().await;
        let table = table_with(Some(Transform::Void), None, None);
        let plan = plan_append_on(&provider, table, 4, "a", None).unwrap();
        assert_eq!(plan.names()[1], "RepartitionExec");
        let table = table_with(None, None, None);
        let plan = plan_append_on(&provider, table, 4, "a", None).unwrap();
        assert_eq!(plan.names()[1], "RepartitionExec");
        let table = table_with(Some(Transform::Bucket(4)), None, None);
        let plan = plan_append_on(&provider, table, 4, "a", None).unwrap();
        assert_eq!(plan.names()[1], "ProjectionExec");
    });
}

#[test]
fn an_unusable_fanout_property_is_refused() {
    run(async {
        let provider = test_provider().await;
        let expected = "Invalid value for write.datafusion.fanout.enabled, \
                        expected 'true' or 'false': provided string was not `true` or `false`";
        for value in ["yes", "", "TRUE", " true"] {
            let table = table_with(None, Some(value), None);
            let text = configuration_text(plan_append_on(&provider, table, 4, "a", None));
            assert_eq!(text, expected);
            assert!(matches!(
                fanout_enabled(Some(value)),
                Err(ProviderError::Configuration(text)) if text == expected
            ));
        }
        assert!(matches!(
            invalid_fanout("odd"),
            ProviderError::Configuration(text) if text.ends_with("expected 'true' or 'false': odd")
        ));
        assert!(fanout_enabled(None).unwrap());
        assert!(fanout_enabled(Some("true")).unwrap());
        assert!(!fanout_enabled(Some("false")).unwrap());
    });
}

#[test]
fn no_partitions_are_refused() {
    run(async {
        let provider = test_provider().await;
        let expected = "target_partitions must be greater than 0";
        for fanout in [None, Some("false"), Some("yes")] {
            let table = table_with(None, fanout, None);
            let text = configuration_text(plan_append_on(&provider, table, 0, "a", None));
            assert_eq!(text, expected);
        }
    });
}

#[test]
fn the_first_problem_ends_the_planning() {
    run(async {
        let provider = test_provider().await;
        let partitioned = || table_with(Some(Transform::Identity), Some("yes"), None);

        // The projection comes before the number of partitions is looked at.
        let result = plan_append_on(&provider, partitioned(), 0, "a", Some("ProjectionExec"));
        assert!(matches!(result, Err(InsertError::Action("ProjectionExec"))));
        let text = configuration_text(plan_append_on(&provider, partitioned(), 0, "a", None));
        assert_eq!(text, "target_partitions must be greater than 0");

        // The repartitioning comes before the property is looked at.
        let result = plan_append_on(&provider, partitioned(), 4, "a", Some("RepartitionExec"));
        assert!(matches!(result, Err(InsertError::Action("RepartitionExec"))));
        let text = configuration_text(plan_append_on(&provider, partitioned(), 4, "a", None));
        assert!(text.starts_with("Invalid value for write.datafusion.fanout.enabled"));

        // A failing sort ends the planning.
        let table = table_with(None, Some("false"), None);
        let result = plan_append_on(&provider, table, 4, "a", Some("SortExec"));
        assert!(matches!(result, Err(InsertError::Action("SortExec"))));
    });
}

#[test]
fn schedules_list_the_stages_in_order() {
    let schedule = schedule_insert(true, Some("false"), 1);
    assert_eq!(
        schedule.stages,
        vec![
            InsertStage::ProjectWithPartition,
            InsertStage::Repartition,
            InsertStage::SortByPartition,
            InsertStage::Write,
            InsertStage::CoalescePartitions,
            InsertStage::Commit,
        ]
    );
    assert!(schedule.failure.is_none());
    let schedule = schedule_insert(false, None, 0);
    assert_eq!(schedule.stages, vec![]);
    assert!(schedule.failure.is_some());
    let schedule = schedule_insert(true, Some("maybe"), 3);
    assert_eq!(
        schedule.stages,
        vec![InsertStage::ProjectWithPartition, InsertStage::Repartition]
    );
    assert!(schedule.failure.is_some());
}

fn into_commit(plan: Plan) -> IcebergCommitExec<dyn Catalog, Plan> {
    match plan {
        Plan::Commit(commit) => *commit,
        other => panic!("unexpected plan: {other:?}"),
    }
}

#[test]
fn test_planned_commit_uses_the_providers_catalog() {
    run(async {
        let provider = test_provider().await;
        let commit = into_commit(plan_append(&provider, "a").await);
        assert!(Arc::ptr_eq(commit.catalog(), provider.catalog()));
        assert!(Arc::ptr_eq(&commit.schema(), &provider.schema()));
    });
}

#[test]
fn test_replacing_children_keeps_catalog_and_commit_id() {
    run(async {
        let provider = test_provider().await;
        let original = into_commit(plan_append(&provider, "a1b2").await);
        let rebuilt = original.replace_input(Plan::Empty);
        assert!(Arc::ptr_eq(rebuilt.catalog(), original.catalog()));
        assert_eq!(rebuilt.commit_id(), original.commit_id());
        assert_eq!(rebuilt.commit_id(), "a1b2");
        assert_eq!(rebuilt.input().name(), "EmptyExec");
        assert_eq!(original.input().name(), "CoalescePartitionsExec");
        let schema: Arc<ArrowSchema> = rebuilt.schema();
        assert_eq!(schema, provider.schema());
    });
}

/// The snapshots of a table, newest first, and the rows that it holds.
struct History {
    lineage: Vec<CommittedSnapshot>,
    rows: u64,
}

impl History {
    fn new() -> Self {
        History {
            lineage: vec![],
            rows: 0,
        }
    }

    /// Runs a planned append of `rows` rows, and gives the number that it reports.
    fn run_insert(&mut self, commit: &IcebergCommitExec<dyn Catalog, Plan>, rows: u64) -> u64 {
        match commit.decide(&self.lineage) {
            CommitDecision::AlreadyCommitted(reported) => reported,
            CommitDecision::Append => {
                let snapshot = CommittedSnapshot {
                    snapshot_id: 1000 + self.lineage.len() as i64,
                    commit_id: Some(commit.commit_id().to_string()),
                    added_rows: rows,
                };
                self.lineage.insert(0, snapshot);
                self.rows += rows;
                rows
            }
        }
    }

    fn current(&self) -> Option<i64> {
        self.lineage.first().map(|snapshot| snapshot.snapshot_id)
    }

    /// Plans an append on the table as it is now.
    fn plan(
        &self,
        provider: &IcebergTableProvider<dyn Catalog>,
        commit_id: &str,
    ) -> IcebergCommitExec<dyn Catalog, Plan> {
        let table = table_with(None, None, self.current());
        into_commit(plan_append_on(provider, table, 4, commit_id, None).unwrap())
    }
}

#[test]
fn test_rerunning_an_insert_plan_commits_once() {
    run(async {
        let provider = test_provider().await;
        let mut history = History::new();
        let insert = history.plan(&provider, "a");
        assert_eq!(history.run_insert(&insert, 2), 2);
        // The retry reports what the committed attempt wrote.
        assert_eq!(history.run_insert(&insert, 2), 2);
        assert_eq!(history.run_insert(&insert.replace_input(Plan::Empty), 5), 2);
        assert_eq!(history.rows, 2);
        assert_eq!(history.lineage.len(), 1);
    });
}

#[test]
fn test_rerun_finds_its_commit_below_later_snapshots() {
    run(async {
        let provider = test_provider().await;
        let mut history = History::new();
        let first = history.plan(&provider, "z");
        history.run_insert(&first, 1);
        let insert = history.plan(&provider, "ab");

        assert_eq!(history.run_insert(&insert, 2), 2);
        let other = history.plan(&provider, "c");
        history.run_insert(&other, 1);
        assert_eq!(history.run_insert(&insert, 2), 2);

        assert_eq!(history.rows, 4);
        assert_eq!(history.lineage.len(), 3);
    });
}

#[test]
fn test_separately_planned_inserts_both_commit() {
    run(async {
        let provider = test_provider().await;
        let mut history = History::new();
        for commit_id in ["first", "second"] {
            let insert = history.plan(&provider, commit_id);
            assert_eq!(history.run_insert(&insert, 1), 1);
        }
        assert_eq!(history.rows, 2);
    });
}

#[test]
fn snapshots_from_before_the_planning_are_not_looked_at() {
    run(async {
        let provider = test_provider().await;
        let history = History {
            lineage: vec![CommittedSnapshot {
                snapshot_id: 1000,
                commit_id: Some("a".to_string()),
                added_rows: 3,
            }],
            rows: 3,
        };
        let planned_later = history.plan(&provider, "a");
        assert_eq!(
            planned_later.decide(&history.lineage),
            CommitDecision::Append
        );
        let planned_before = History::new().plan(&provider, "a");
        assert_eq!(
            planned_before.decide(&history.lineage),
            CommitDecision::AlreadyCommitted(3)
        );
    });
}

#[test]
fn snapshots_of_others_are_no_commits() {
    run(async {
        let provider = test_provider().await;
        let commit = History::new().plan(&provider, "a");
        let lineage = vec![
            CommittedSnapshot {
                snapshot_id: 2,
                commit_id: None,
                added_rows: 3,
            },
            CommittedSnapshot {
                snapshot_id: 1,
                commit_id: Some("b".to_string()),
                added_rows: 4,
            },
        ];
        assert_eq!(commit.decide(&lineage), CommitDecision::Append);
        assert_eq!(commit.decide(&vec![]), CommitDecision::Append);
    });
}

#[test]
fn integers_are_written_in_decimal() {
    for n in [0, 7, 10, 99, 100, -1, -10, 3055729675574597004, i64::MAX, i64::MIN] {
        assert_eq!(integer(n), n.to_string());
    }
    match snapshot_not_found(i64::MIN, "t") {
        ProviderError::Execution(text) => {
            assert_eq!(
                text,
                "snapshot id -9223372036854775808 not found in table t"
            )
        }
        other => panic!("unexpected error: {other:?}"),
    }
}
