//! Planning an append to a table.
//!
//! An append is planned in stages. The stages follow from the table and the session alone, so
//! they are settled as soon as the table is loaded: [`schedule_insert`] says which they are.
//! [`InsertPlanning`] then walks through them, handing out one [`InsertAction`] after another
//! and taking back the plan that the action made.

use std::sync::Arc;

use datafusion::arrow::datatypes::Schema as ArrowSchema;
use iceberg::table::Table;
use iceberg::TableIdent;
use vstd::prelude::*;

use crate::error::ProviderError;
use crate::outside::{
    fanout_default, fanout_property_key, is_unpartitioned, parse_bool, table_property,
};

verus! {

/// How the rows of an insert relate to the rows that the table holds.
#[derive(Clone, Copy, Debug, PartialEq, Eq, Structural)]
pub enum InsertOp {
    /// The new rows join the existing ones.
    Append,
    /// The new rows replace all existing ones.
    Overwrite,
    /// The new rows replace the existing ones that they collide with.
    Replace,
}

impl InsertOp {
    /// The name of the operation.
    pub open spec fn name_text(self) -> Seq<char> {
        match self {
            InsertOp::Append => "Insert Into"@,
            InsertOp::Overwrite => "Insert Overwrite"@,
            InsertOp::Replace => "Replace Into"@,
        }
    }

    /// The name of the operation.
    pub fn name(&self) -> (name: &'static str)
        ensures
            name@ == self.name_text(),
    {
        match self {
            InsertOp::Append => "Insert Into",
            InsertOp::Overwrite => "Insert Overwrite",
            InsertOp::Replace => "Replace Into",
        }
    }
}

/// The text that an insert other than an append is refused with.
pub open spec fn append_only_text(insert_op: InsertOp) -> Seq<char> {
    "IcebergTableProvider supports only append inserts, got "@ + insert_op.name_text()
}

/// Lets appends through and refuses every other insert.
pub fn check_insert_op(insert_op: InsertOp) -> (checked: Result<(), ProviderError>)
    ensures
        checked is Ok <==> insert_op is Append,
        checked matches Err(error) ==> (error matches ProviderError::NotImplemented(text)
            && text@ == append_only_text(insert_op)),
{
    if insert_op == InsertOp::Append {
        Ok(())
    } else {
        let mut text = "IcebergTableProvider supports only append inserts, got ".to_owned();
        text.append(insert_op.name());
        Err(ProviderError::NotImplemented(text))
    }
}

/// What the property that switches fanout writing says: `Some` of whether it is on, or `None`
/// where the value is unusable. Without the property it is on.
pub open spec fn fanout_setting(property: Option<Seq<char>>) -> Option<bool> {
    match property {
        None => Some(true),
        Some(value) => if value == "true"@ {
            Some(true)
        } else if value == "false"@ {
            Some(false)
        } else {
            None
        },
    }
}

/// The text that an unusable value of the fanout property is refused with, given what is wrong
/// with the value.
pub open spec fn invalid_fanout_text(detail: Seq<char>) -> Seq<char> {
    "Invalid value for "@ + "write.datafusion.fanout.enabled"@
        + ", expected 'true' or 'false': "@ + detail
}

/// Refuses an unusable value of the fanout property, given what is wrong with it.
pub fn invalid_fanout(detail: &str) -> (error: ProviderError)
    ensures
        error matches ProviderError::Configuration(text) && text@ == invalid_fanout_text(detail@),
{
    let mut text = "Invalid value for ".to_owned();
    text.append(fanout_property_key());
    text.append(", expected 'true' or 'false': ");
    text.append(detail);
    ProviderError::Configuration(text)
}

/// The value of an optional text.
pub open spec fn optional_text(text: Option<&str>) -> Option<Seq<char>> {
    match text {
        Some(text) => Some(text@),
        None => None,
    }
}

/// Reads the value of the property that switches fanout writing.
pub fn fanout_enabled(property: Option<&str>) -> (enabled: Result<bool, ProviderError>)
    ensures
        enabled is Ok <==> fanout_setting(optional_text(property)) is Some,
        enabled matches Ok(on) ==> fanout_setting(optional_text(property)) == Some(on),
        enabled matches Err(error) ==> (error matches ProviderError::Configuration(text)
            && text@ == invalid_fanout_text(
            crate::outside::bool_parse_error(optional_text(property)->Some_0),
        )),
{
    proof {
        reveal_strlit("true");
        reveal_strlit("false");
        assert("true"@ != "false"@) by {
            assert("true"@.len() != "false"@.len());
        }
    }
    match property {
        None => Ok(fanout_default()),
        Some(value) => match parse_bool(value) {
            Ok(on) => Ok(on),
            Err(detail) => Err(invalid_fanout(detail.as_str())),
        },
    }
}

/// One stage of planning an append.
#[derive(Clone, Copy, Debug, PartialEq, Eq, Structural)]
pub enum InsertStage {
    /// Each row gets the value of the partition that it belongs to.
    ProjectWithPartition,
    /// The rows are spread over the partitions of the session.
    Repartition,
    /// The rows are sorted by the partition that they belong to.
    SortByPartition,
    /// The rows are written to data files.
    Write,
    /// What the writers report is brought together.
    CoalescePartitions,
    /// The data files are committed to the table.
    Commit,
}

/// The stages of planning an append that come about: all of them, or those before the first
/// unusable setting.
///
/// Only a partitioned table needs its rows to carry their partition; the rows are sorted by it
/// where fanout writing is off.
pub open spec fn scheduled_stages(
    partitioned: bool,
    fanout_property: Option<Seq<char>>,
    target_partitions: nat,
) -> Seq<InsertStage> {
    let project = if partitioned {
        seq![InsertStage::ProjectWithPartition]
    } else {
        seq![]
    };
    let sort = if fanout_setting(fanout_property) == Some(false) {
        seq![InsertStage::SortByPartition]
    } else {
        seq![]
    };
    if target_partitions == 0 {
        project
    } else if fanout_setting(fanout_property) is None {
        project + seq![InsertStage::Repartition]
    } else {
        project + seq![InsertStage::Repartition] + sort + seq![
            InsertStage::Write,
            InsertStage::CoalescePartitions,
            InsertStage::Commit,
        ]
    }
}

/// What the planning ends with where a setting is unusable. The session's number of partitions
/// is looked at before the table's property.
pub open spec fn scheduled_failure(
    fanout_property: Option<Seq<char>>,
    target_partitions: nat,
) -> Option<Seq<char>> {
    if target_partitions == 0 {
        Some("target_partitions must be greater than 0"@)
    } else if fanout_setting(fanout_property) is None {
        Some(invalid_fanout_text(crate::outside::bool_parse_error(fanout_property->Some_0)))
    } else {
        None
    }
}

/// The text of a failure, where there is one and it concerns a setting.
pub open spec fn failure_text(failure: Option<ProviderError>) -> Option<Seq<char>> {
    match failure {
        Some(ProviderError::Configuration(text)) => Some(text@),
        _ => None,
    }
}

/// The stages of planning one append.
pub struct InsertSchedule {
    /// The stages, in their order.
    pub stages: Vec<InsertStage>,
    /// What the planning ends with after the last stage, where a setting is unusable.
    pub failure: Option<ProviderError>,
}

/// Settles the stages of planning an append.
///
/// An unusable setting ends the planning only when the stage that needs it comes up, so the
/// stages before it are still scheduled.
pub fn schedule_insert(
    partitioned: bool,
    fanout_property: Option<&str>,
    target_partitions: usize,
) -> (schedule: InsertSchedule)
    ensures
        schedule.stages@ == scheduled_stages(
            partitioned,
            optional_text(fanout_property),
            target_partitions as nat,
        ),
        schedule.failure is Some <==> failure_text(schedule.failure) is Some,
        failure_text(schedule.failure) == scheduled_failure(
            optional_text(fanout_property),
            target_partitions as nat,
        ),
{
    let mut stages: Vec<InsertStage> = Vec::new();
    if partitioned {
        stages.push(InsertStage::ProjectWithPartition);
    }
    if target_partitions == 0 {
        let text = "target_partitions must be greater than 0".to_owned();
        return InsertSchedule { stages, failure: Some(ProviderError::Configuration(text)) };
    }
    stages.push(InsertStage::Repartition);
    match fanout_enabled(fanout_property) {
        Err(error) => InsertSchedule { stages, failure: Some(error) },
        Ok(fanout) => {
            if !fanout {
                stages.push(InsertStage::SortByPartition);
            }
            stages.push(InsertStage::Write);
            stages.push(InsertStage::CoalescePartitions);
            stages.push(InsertStage::Commit);
            InsertSchedule { stages, failure: None }
        },
    }
}

/// What planning an append asks for next. Each action makes a plan out of `input`.
#[derive(Debug)]
pub enum InsertAction<C: ?Sized, P> {
    /// Give each row the value of the partition of `table` that it belongs to.
    ProjectWithPartition {
        /// The plan that yields the rows.
        input: P,
        /// The table that is appended to.
        table: Arc<Table>,
    },
    /// Spread the rows over `target_partitions` partitions, as suits `table`.
    Repartition {
        /// The plan that yields the rows.
        input: P,
        /// The table that is appended to.
        table: Arc<Table>,
        /// How many partitions the session works with: at least one.
        target_partitions: usize,
    },
    /// Sort the rows by the partition that they belong to.
    SortByPartition {
        /// The plan that yields the rows.
        input: P,
    },
    /// Write the rows to data files of `table`.
    Write {
        /// The plan that yields the rows.
        input: P,
        /// The table that is appended to.
        table: Arc<Table>,
    },
    /// Bring the output of all writers together, so that all files are committed at once.
    CoalescePartitions {
        /// The plan that writes.
        input: P,
    },
    /// Commit the data files to `table` through `catalog`.
    Commit {
        /// The plan that yields the data files.
        input: P,
        /// The table that is appended to.
        table: Arc<Table>,
        /// The catalog of the provider that planned the append.
        catalog: Arc<C>,
        /// The schema of the provider that planned the append.
        schema: Arc<ArrowSchema>,
    },
}

/// Where the planning of an append stands.
pub struct InsertPlanningView<C: ?Sized> {
    /// The table that is appended to, as loaded for this append.
    pub table: Arc<Table>,
    /// The catalog to commit through.
    pub catalog: Arc<C>,
    /// The schema of the provider.
    pub schema: Arc<ArrowSchema>,
    /// How many partitions the session works with.
    pub target_partitions: usize,
    /// The position in the schedule of the stage that is under way.
    pub position: nat,
}

impl<C: ?Sized> InsertPlanningView<C> {
    /// The stages that this append is planned in.
    pub open spec fn stages(self) -> Seq<InsertStage> {
        scheduled_stages(
            crate::outside::table_contents(*self.table).partitioned(),
            crate::outside::table_contents(*self.table).property(
                "write.datafusion.fanout.enabled"@,
            ),
            self.target_partitions as nat,
        )
    }

    /// What the planning ends with where a setting is unusable.
    pub open spec fn failure(self) -> Option<Seq<char>> {
        scheduled_failure(
            crate::outside::table_contents(*self.table).property(
                "write.datafusion.fanout.enabled"@,
            ),
            self.target_partitions as nat,
        )
    }

    /// The same planning with another stage under way.
    pub open spec fn at(self, position: nat) -> Self {
        InsertPlanningView { position, ..self }
    }

    /// What the stage that is under way asks for, given the plan of the stage before it.
    pub open spec fn action<P>(self, input: P) -> InsertAction<C, P> {
        match self.stages()[self.position as int] {
            InsertStage::ProjectWithPartition => InsertAction::ProjectWithPartition {
                input,
                table: self.table,
            },
            InsertStage::Repartition => InsertAction::Repartition {
                input,
                table: self.table,
                target_partitions: self.target_partitions,
            },
            InsertStage::SortByPartition => InsertAction::SortByPartition { input },
            InsertStage::Write => InsertAction::Write { input, table: self.table },
            InsertStage::CoalescePartitions => InsertAction::CoalescePartitions { input },
            InsertStage::Commit => InsertAction::Commit {
                input,
                table: self.table,
                catalog: self.catalog,
                schema: self.schema,
            },
        }
    }
}

/// The planning of an append between two of its stages.
pub struct InsertPlanning<C: ?Sized> {
    table: Arc<Table>,
    catalog: Arc<C>,
    schema: Arc<ArrowSchema>,
    target_partitions: usize,
    stages: Vec<InsertStage>,
    failure: Option<ProviderError>,
    position: usize,
}

impl<C: ?Sized> View for InsertPlanning<C> {
    type V = InsertPlanningView<C>;

    closed spec fn view(&self) -> InsertPlanningView<C> {
        InsertPlanningView {
            table: self.table,
            catalog: self.catalog,
            schema: self.schema,
            target_partitions: self.target_partitions,
            position: self.position as nat,
        }
    }
}

/// How the planning of an append goes on.
pub enum InsertProgress<C: ?Sized, P> {
    /// There is an action to perform; the planning takes its result.
    Next(InsertPlanning<C>, InsertAction<C, P>),
    /// This is the plan.
    Done(P),
}

/// Why an append could not be planned.
#[derive(Debug)]
pub enum InsertError<E> {
    /// The provider refused it.
    Provider(ProviderError),
    /// An action could not be performed.
    Action(E),
}

/// How the planning `planning` goes on with the plan `input` once the stages before
/// `planning.position` are through: with the stage at that position, or, after the last one,
/// with the failure that the schedule ends in, or else with `input` as the finished plan.
pub open spec fn goes_on<C: ?Sized, P>(
    planning: InsertPlanningView<C>,
    input: P,
    progress: Result<InsertProgress<C, P>, ProviderError>,
) -> bool {
    if planning.position < planning.stages().len() {
        &&& progress matches Ok(InsertProgress::Next(next, action))
        &&& next@ == planning
        &&& action == planning.action(input)
    } else {
        match planning.failure() {
            Some(text) => progress matches Err(ProviderError::Configuration(message)) && message@
                == text,
            None => progress == Ok::<InsertProgress<C, P>, ProviderError>(
                InsertProgress::Done(input),
            ),
        }
    }
}

impl<C: ?Sized> InsertPlanning<C> {
    /// The schedule is the one of the table and the session, and a stage of it is under way.
    #[verifier::type_invariant]
    spec fn well_formed(self) -> bool {
        &&& self.stages@ == self@.stages()
        &&& failure_text(self.failure) == self@.failure()
        &&& self.failure is Some <==> failure_text(self.failure) is Some
        &&& self.position < self.stages@.len()
    }

    /// What the stage that is under way asks for, given the plan of the stage before it.
    fn action<P>(&self, input: P) -> (action: InsertAction<C, P>)
        ensures
            action == self@.action(input),
    {
        proof {
            use_type_invariant(self);
        }
        match self.stages[self.position] {
            InsertStage::ProjectWithPartition => InsertAction::ProjectWithPartition {
                input,
                table: self.table.clone(),
            },
            InsertStage::Repartition => InsertAction::Repartition {
                input,
                table: self.table.clone(),
                target_partitions: self.target_partitions,
            },
            InsertStage::SortByPartition => InsertAction::SortByPartition { input },
            InsertStage::Write => InsertAction::Write { input, table: self.table.clone() },
            InsertStage::CoalescePartitions => InsertAction::CoalescePartitions { input },
            InsertStage::Commit => InsertAction::Commit {
                input,
                table: self.table.clone(),
                catalog: self.catalog.clone(),
                schema: self.schema.clone(),
            },
        }
    }

    /// Starts the planning on a table that was just loaded.
    fn start<P>(
        table: Arc<Table>,
        catalog: Arc<C>,
        schema: Arc<ArrowSchema>,
        target_partitions: usize,
        input: P,
    ) -> (progress: Result<InsertProgress<C, P>, ProviderError>)
        ensures
            goes_on(
                InsertPlanningView { table, catalog, schema, target_partitions, position: 0 },
                input,
                progress,
            ),
    {
        let property = table_property(&table, fanout_property_key());
        let fanout_property: Option<&str> = match &property {
            Some(value) => Some(value.as_str()),
            None => None,
        };
        let InsertSchedule { stages, failure } = schedule_insert(
            !is_unpartitioned(&table),
            fanout_property,
            target_partitions,
        );
        if stages.len() > 0 {
            let planning = InsertPlanning {
                table,
                catalog,
                schema,
                target_partitions,
                stages,
                failure,
                position: 0,
            };
            let action = planning.action(input);
            Ok(InsertProgress::Next(planning, action))
        } else {
            match failure {
                Some(error) => Err(error),
                None => Ok(InsertProgress::Done(input)),
            }
        }
    }

    /// Takes the result of the action that was under way, and goes on with the next stage.
    ///
    /// Where the action could not be performed the planning ends with its error.
    pub fn planned<P, E>(self, result: Result<P, E>) -> (progress: Result<
        InsertProgress<C, P>,
        InsertError<E>,
    >)
        ensures
            match result {
                Err(error) => progress == Err::<InsertProgress<C, P>, InsertError<E>>(
                    InsertError::Action(error),
                ),
                Ok(plan) => match progress {
                    Ok(next) => goes_on(self@.at(self@.position + 1), plan, Ok(next)),
                    Err(InsertError::Provider(error)) => goes_on(
                        self@.at(self@.position + 1),
                        plan,
                        Err(error),
                    ),
                    Err(InsertError::Action(_)) => false,
                },
            },
    {
        proof {
            use_type_invariant(&self);
        }
        let plan = match result {
            Ok(plan) => plan,
            Err(error) => {
                return Err(InsertError::Action(error));
            },
        };
        let position: usize = self.position + 1;
        if position < self.stages.len() {
            let planning = InsertPlanning { position, ..self };
            let action = planning.action(plan);
            Ok(InsertProgress::Next(planning, action))
        } else {
            match self.failure {
                Some(error) => Err(InsertError::Provider(error)),
                None => Ok(InsertProgress::Done(plan)),
            }
        }
    }
}

/// What an append that waits for its table is about.
pub struct InsertRequestView<C: ?Sized, P> {
    /// The catalog to load the table from and to commit through.
    pub catalog: Arc<C>,
    /// The table that is appended to.
    pub table_ident: TableIdent,
    /// The schema of the provider.
    pub schema: Arc<ArrowSchema>,
    /// How many partitions the session works with.
    pub target_partitions: usize,
    /// The plan that yields the rows.
    pub input: P,
}

impl<C: ?Sized, P> InsertRequestView<C, P> {
    /// The planning of this append on `table`, with its first stage under way.
    pub open spec fn planning(self, table: Table) -> InsertPlanningView<C> {
        InsertPlanningView {
            table: Arc::new(table),
            catalog: self.catalog,
            schema: self.schema,
            target_partitions: self.target_partitions,
            position: 0,
        }
    }
}

/// An append that waits for its table: the latest state of it has to be loaded.
pub struct InsertRequest<C: ?Sized, P> {
    catalog: Arc<C>,
    table_ident: Arc<TableIdent>,
    schema: Arc<ArrowSchema>,
    target_partitions: usize,
    input: P,
}

impl<C: ?Sized, P> View for InsertRequest<C, P> {
    type V = InsertRequestView<C, P>;

    closed spec fn view(&self) -> InsertRequestView<C, P> {
        InsertRequestView {
            catalog: self.catalog,
            table_ident: *self.table_ident,
            schema: self.schema,
            target_partitions: self.target_partitions,
            input: self.input,
        }
    }
}

impl<C: ?Sized, P> InsertRequest<C, P> {
    /// An append of the rows of `input`.
    pub(crate) fn new(
        catalog: Arc<C>,
        table_ident: Arc<TableIdent>,
        schema: Arc<ArrowSchema>,
        target_partitions: usize,
        input: P,
    ) -> (request: Self)
        ensures
            request@ == (InsertRequestView {
                catalog,
                table_ident: *table_ident,
                schema,
                target_partitions,
                input,
            }),
    {
        InsertRequest { catalog, table_ident, schema, target_partitions, input }
    }

    /// The catalog to load the table from.
    pub fn catalog(&self) -> (catalog: &Arc<C>)
        ensures
            *catalog == self@.catalog,
    {
        &self.catalog
    }

    /// The table to load.
    pub fn table_ident(&self) -> (ident: &TableIdent)
        ensures
            *ident == self@.table_ident,
    {
        &self.table_ident
    }

    /// Takes the loaded table, and starts the planning on it.
    pub fn table_loaded(self, loaded: Result<Table, iceberg::Error>) -> (progress: Result<
        InsertProgress<C, P>,
        ProviderError,
    >)
        ensures
            match loaded {
                Err(error) => progress == Err::<InsertProgress<C, P>, ProviderError>(
                    ProviderError::External(error),
                ),
                Ok(table) => goes_on(self@.planning(table), self@.input, progress),
            },
    {
        match loaded {
            Err(error) => Err(ProviderError::External(error)),
            Ok(table) => InsertPlanning::start(
                Arc::new(table),
                self.catalog,
                self.schema,
                self.target_partitions,
                self.input,
            ),
        }
    }
}

} // verus!
