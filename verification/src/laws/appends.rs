//! What holds of the appends that a catalog-backed provider plans.

use std::sync::Arc;

use datafusion::arrow::datatypes::Schema as ArrowSchema;
use iceberg::table::Table;
use iceberg::TableIdent;
use vstd::prelude::*;

use crate::error::ProviderError;
use crate::insert::{
    InsertAction, InsertError, InsertOp, InsertPlanning, InsertProgress, InsertRequest,
    InsertSchedule,
};
use crate::provider::IcebergTableProvider;

verus! {

/// Whether the rows of a table go to different partitions: some field of its default partition
/// spec has a transform other than `void`.
pub open spec fn goes_to_partitions(table: Table) -> bool {
    let void = crate::outside::table_contents(table).void_partition_fields;
    exists|i: int| 0 <= i < void.len() && !(#[trigger] void[i])
}

/// The property of a table that switches fanout writing, if the table has it.
pub open spec fn fanout_property(table: Table) -> Option<Seq<char>> {
    let properties = crate::outside::table_contents(table).properties;
    if properties.contains_key("write.datafusion.fanout.enabled"@) {
        Some(properties["write.datafusion.fanout.enabled"@])
    } else {
        None
    }
}

/// Whether an append has come to `steps`: each is what the planning handed out, first on the
/// loaded table and then on the plan that the action before it made, with the planning that
/// takes the result.
pub open spec fn comes_to<C: ?Sized, P, E>(
    request: InsertRequest<C, P>,
    table: Table,
    plans: Seq<Result<P, E>>,
    steps: Seq<(InsertPlanning<C>, InsertAction<C, P>)>,
) -> bool {
    &&& steps.len() == plans.len() + 1
    &&& call_ensures(
        InsertRequest::<C, P>::table_loaded,
        (request, Ok::<Table, iceberg::Error>(table)),
        Ok::<InsertProgress<C, P>, ProviderError>(InsertProgress::Next(steps[0].0, steps[0].1)),
    )
    &&& forall|k: int| #![trigger plans[k]]
        0 <= k < plans.len() ==> plans[k] is Ok && call_ensures(
            InsertPlanning::<C>::planned::<P, E>,
            (steps[k].0, plans[k]),
            Ok::<InsertProgress<C, P>, InsertError<E>>(
                InsertProgress::Next(steps[k + 1].0, steps[k + 1].1),
            ),
        )
}

/// The steps of an append are those of its schedule.
proof fn steps_are_scheduled<C: ?Sized, P, E>(
    request: InsertRequest<C, P>,
    table: Table,
    plans: Seq<Result<P, E>>,
    steps: Seq<(InsertPlanning<C>, InsertAction<C, P>)>,
    k: int,
)
    requires
        comes_to(request, table, plans, steps),
        0 <= k < steps.len(),
    ensures
        steps[k].0@ == request@.planning(table).at(k as nat),
        k < request@.planning(table).stages().len(),
        steps[k].1 == request@.planning(table).at(k as nat).action(
            if k == 0 {
                request@.input
            } else {
                plans[k - 1]->Ok_0
            },
        ),
    decreases k,
{
    if k > 0 {
        steps_are_scheduled(request, table, plans, steps, k - 1);
        assert(plans[k - 1] is Ok);
    }
}

/// Only appends are planned; the answer to another insert gives the name of the operation.
pub proof fn only_appends_are_planned<C: ?Sized, P>(
    provider: IcebergTableProvider<C>,
    target_partitions: usize,
    input: P,
    op: InsertOp,
    request: Result<InsertRequest<C, P>, ProviderError>,
)
    requires
        call_ensures(
            IcebergTableProvider::<C>::insert_into::<P>,
            (&provider, target_partitions, input, op),
            request,
        ),
    ensures
        match op {
            InsertOp::Append => request is Ok,
            InsertOp::Overwrite => request matches Err(ProviderError::NotImplemented(text)) && text@
                == "IcebergTableProvider supports only append inserts, got "@
                + "Insert Overwrite"@,
            InsertOp::Replace => request matches Err(ProviderError::NotImplemented(text)) && text@
                == "IcebergTableProvider supports only append inserts, got "@ + "Replace Into"@,
        },
{
}

/// An append asks the provider's catalog for the provider's table.
pub proof fn appends_load_the_providers_table<C: ?Sized, P>(
    provider: IcebergTableProvider<C>,
    catalog: &Arc<C>,
    table_ident: &TableIdent,
    target_partitions: usize,
    input: P,
    op: InsertOp,
    request: InsertRequest<C, P>,
    asked: &Arc<C>,
    asked_for: &TableIdent,
)
    requires
        call_ensures(IcebergTableProvider::<C>::catalog, (&provider,), catalog),
        call_ensures(IcebergTableProvider::<C>::table_ident, (&provider,), table_ident),
        call_ensures(
            IcebergTableProvider::<C>::insert_into::<P>,
            (&provider, target_partitions, input, op),
            Ok::<InsertRequest<C, P>, ProviderError>(request),
        ),
        call_ensures(InsertRequest::<C, P>::catalog, (&request,), asked),
        call_ensures(InsertRequest::<C, P>::table_ident, (&request,), asked_for),
    ensures
        *asked == *catalog,
        *asked_for == *table_ident,
{
}

/// An append to a table that could not be loaded is refused with the catalog's own error.
pub proof fn appends_need_the_table<C: ?Sized, P>(
    request: InsertRequest<C, P>,
    error: iceberg::Error,
    progress: Result<InsertProgress<C, P>, ProviderError>,
)
    requires
        call_ensures(
            InsertRequest::<C, P>::table_loaded,
            (request, Err::<Table, iceberg::Error>(error)),
            progress,
        ),
    ensures
        progress == Err::<InsertProgress<C, P>, ProviderError>(ProviderError::External(error)),
{
}

/// An append begins with the rows that are to be inserted and the table as loaded. They get their
/// partition where the table has partitions, and else are spread at once over as many partitions
/// as the session has; a session that has none is refused.
pub proof fn appends_begin_with_the_rows<C: ?Sized, P>(
    provider: IcebergTableProvider<C>,
    target_partitions: usize,
    input: P,
    op: InsertOp,
    request: InsertRequest<C, P>,
    table: Table,
    progress: Result<InsertProgress<C, P>, ProviderError>,
)
    requires
        call_ensures(
            IcebergTableProvider::<C>::insert_into::<P>,
            (&provider, target_partitions, input, op),
            Ok::<InsertRequest<C, P>, ProviderError>(request),
        ),
        call_ensures(
            InsertRequest::<C, P>::table_loaded,
            (request, Ok::<Table, iceberg::Error>(table)),
            progress,
        ),
    ensures
        if goes_to_partitions(table) {
            &&& progress matches Ok(InsertProgress::Next(_, action))
            &&& action == (InsertAction::<C, P>::ProjectWithPartition {
                input,
                table: Arc::new(table),
            })
        } else if target_partitions > 0 {
            &&& progress matches Ok(InsertProgress::Next(_, action))
            &&& action == (InsertAction::<C, P>::Repartition {
                input,
                table: Arc::new(table),
                target_partitions,
            })
        } else {
            progress matches Err(ProviderError::Configuration(text)) && text@
                == "target_partitions must be greater than 0"@
        },
{
    assert(goes_to_partitions(table) == crate::outside::table_contents(table).partitioned());
}

/// Each action of an append is followed by the next, on the plan that it made: the rows that got
/// their partition are spread over the session's partitions; rows that are spread are sorted
/// where the fanout property is `false`, and else are written; sorted rows are written; what was
/// written is brought together and then committed, through the provider's catalog and with the
/// provider's schema; and the commit is the plan of the append. All of this concerns the table as
/// loaded. A session without partitions is refused before rows are spread, and an unusable value
/// of the property once they are.
///
/// `steps` is what the planning has come to so far, and `next` what it makes of `plan`, the plan
/// that the last of their actions made.
pub proof fn each_action_is_followed_by_the_next<C: ?Sized, P, E>(
    provider: IcebergTableProvider<C>,
    catalog: &Arc<C>,
    schema: Arc<ArrowSchema>,
    target_partitions: usize,
    input: P,
    op: InsertOp,
    request: InsertRequest<C, P>,
    table: Table,
    plans: Seq<Result<P, E>>,
    steps: Seq<(InsertPlanning<C>, InsertAction<C, P>)>,
    plan: P,
    next: Result<InsertProgress<C, P>, InsertError<E>>,
)
    requires
        call_ensures(IcebergTableProvider::<C>::catalog, (&provider,), catalog),
        call_ensures(IcebergTableProvider::<C>::schema, (&provider,), schema),
        call_ensures(
            IcebergTableProvider::<C>::insert_into::<P>,
            (&provider, target_partitions, input, op),
            Ok::<InsertRequest<C, P>, ProviderError>(request),
        ),
        comes_to(request, table, plans, steps),
        call_ensures(
            InsertPlanning::<C>::planned::<P, E>,
            (steps.last().0, Ok::<P, E>(plan)),
            next,
        ),
    ensures
        match steps.last().1 {
            InsertAction::ProjectWithPartition { .. } => if target_partitions > 0 {
                &&& next matches Ok(InsertProgress::Next(_, action))
                &&& action == (InsertAction::<C, P>::Repartition {
                    input: plan,
                    table: Arc::new(table),
                    target_partitions,
                })
            } else {
                next matches Err(InsertError::Provider(ProviderError::Configuration(text))) && text@
                    == "target_partitions must be greater than 0"@
            },
            InsertAction::Repartition { .. } => match fanout_property(table) {
                Some(value) => if value == "false"@ {
                    &&& next matches Ok(InsertProgress::Next(_, action))
                    &&& action == (InsertAction::<C, P>::SortByPartition { input: plan })
                } else if value == "true"@ {
                    &&& next matches Ok(InsertProgress::Next(_, action))
                    &&& action == (InsertAction::<C, P>::Write {
                        input: plan,
                        table: Arc::new(table),
                    })
                } else {
                    &&& next matches Err(InsertError::Provider(ProviderError::Configuration(text)))
                    &&& text@ == "Invalid value for "@ + "write.datafusion.fanout.enabled"@
                        + ", expected 'true' or 'false': "@ + crate::outside::bool_parse_error(
                        value,
                    )
                },
                None => {
                    &&& next matches Ok(InsertProgress::Next(_, action))
                    &&& action == (InsertAction::<C, P>::Write {
                        input: plan,
                        table: Arc::new(table),
                    })
                },
            },
            InsertAction::SortByPartition { .. } => {
                &&& next matches Ok(InsertProgress::Next(_, action))
                &&& action == (InsertAction::<C, P>::Write {
                    input: plan,
                    table: Arc::new(table),
                })
            },
            InsertAction::Write { .. } => {
                &&& next matches Ok(InsertProgress::Next(_, action))
                &&& action == (InsertAction::<C, P>::CoalescePartitions { input: plan })
            },
            InsertAction::CoalescePartitions { .. } => {
                &&& next matches Ok(InsertProgress::Next(_, action))
                &&& action == (InsertAction::<C, P>::Commit {
                    input: plan,
                    table: Arc::new(table),
                    catalog: *catalog,
                    schema,
                })
            },
            InsertAction::Commit { .. } => next == Ok::<InsertProgress<C, P>, InsertError<E>>(
                InsertProgress::Done(plan),
            ),
        },
{
    reveal_strlit("true");
    reveal_strlit("false");
    assert("true"@.len() != "false"@.len());
    steps_are_scheduled(request, table, plans, steps, steps.len() - 1);
    assert(goes_to_partitions(table) == crate::outside::table_contents(table).partitioned());
    let stages = request@.planning(table).stages();
    assert(stages.len() <= 6);
}

/// Where an action could not be performed the append ends with the error of the action.
pub proof fn failed_actions_end_an_append<C: ?Sized, P, E>(
    planning: InsertPlanning<C>,
    error: E,
    next: Result<InsertProgress<C, P>, InsertError<E>>,
)
    requires
        call_ensures(
            InsertPlanning::<C>::planned::<P, E>,
            (planning, Err::<P, E>(error)),
            next,
        ),
    ensures
        next == Err::<InsertProgress<C, P>, InsertError<E>>(InsertError::Action(error)),
{
}

/// An append that is planned to its end writes, brings together and commits, in this order, each
/// once and at the end. Before that the rows are spread over partitions, once; before that they
/// got their partition, if the table has partitions; and after it they are sorted, if the fanout
/// property is `false`. Nothing else is done.
pub proof fn a_planned_append_writes_and_commits_once<C: ?Sized, P, E>(
    provider: IcebergTableProvider<C>,
    target_partitions: usize,
    input: P,
    op: InsertOp,
    request: InsertRequest<C, P>,
    table: Table,
    plans: Seq<Result<P, E>>,
    steps: Seq<(InsertPlanning<C>, InsertAction<C, P>)>,
    plan: P,
    finished: P,
)
    requires
        call_ensures(
            IcebergTableProvider::<C>::insert_into::<P>,
            (&provider, target_partitions, input, op),
            Ok::<InsertRequest<C, P>, ProviderError>(request),
        ),
        comes_to(request, table, plans, steps),
        call_ensures(
            InsertPlanning::<C>::planned::<P, E>,
            (steps.last().0, Ok::<P, E>(plan)),
            Ok::<InsertProgress<C, P>, InsertError<E>>(InsertProgress::Done(finished)),
        ),
    ensures
        finished == plan,
        ({
            let first: int = if goes_to_partitions(table) {
                1
            } else {
                0
            };
            let sorted: int = if fanout_property(table) == Some("false"@) {
                1
            } else {
                0
            };
            &&& steps.len() == first + 1 + sorted + 3
            &&& first == 1 ==> steps[0].1 is ProjectWithPartition
            &&& steps[first].1 is Repartition
            &&& sorted == 1 ==> steps[first + 1].1 is SortByPartition
            &&& steps[first + 1 + sorted].1 is Write
            &&& steps[first + 2 + sorted].1 is CoalescePartitions
            &&& steps[first + 3 + sorted].1 is Commit
        }),
{
    reveal_strlit("true");
    reveal_strlit("false");
    assert("true"@.len() != "false"@.len());
    assert(goes_to_partitions(table) == crate::outside::table_contents(table).partitioned());
    assert forall|k: int| 0 <= k < steps.len() implies #[trigger] steps[k].1
        == request@.planning(table).at(k as nat).action(
        if k == 0 {
            request@.input
        } else {
            plans[k - 1]->Ok_0
        },
    ) by {
        steps_are_scheduled(request, table, plans, steps, k);
    }
    steps_are_scheduled(request, table, plans, steps, steps.len() - 1);
}

/// The schedule of an append, for every table and session: what is done and in which order, and
/// what the planning ends with where a setting is unusable.
pub proof fn schedules_follow_the_settings(
    partitioned: bool,
    property: Option<&str>,
    target_partitions: usize,
    schedule: InsertSchedule,
)
    requires
        call_ensures(
            crate::insert::schedule_insert,
            (partitioned, property, target_partitions),
            schedule,
        ),
    ensures
        ({
            let stages = schedule.stages@;
            let first: int = if partitioned {
                1
            } else {
                0
            };
            let usable = property matches Some(value) ==> value@ == "true"@ || value@ == "false"@;
            let sorted: int = if property matches Some(value) && value@ == "false"@ {
                1
            } else {
                0
            };
            &&& partitioned ==> stages[0] is ProjectWithPartition
            &&& if target_partitions == 0 {
                &&& stages.len() == first
                &&& schedule.failure matches Some(ProviderError::Configuration(text))
                &&& text@ == "target_partitions must be greater than 0"@
            } else if !usable {
                &&& stages.len() == first + 1
                &&& stages[first] is Repartition
                &&& schedule.failure matches Some(ProviderError::Configuration(text))
                &&& text@ == "Invalid value for "@ + "write.datafusion.fanout.enabled"@
                    + ", expected 'true' or 'false': "@ + crate::outside::bool_parse_error(
                    property->Some_0@,
                )
            } else {
                &&& stages.len() == first + 1 + sorted + 3
                &&& stages[first] is Repartition
                &&& sorted == 1 ==> stages[first + 1] is SortByPartition
                &&& stages[first + 1 + sorted] is Write
                &&& stages[first + 2 + sorted] is CoalescePartitions
                &&& stages[first + 3 + sorted] is Commit
                &&& schedule.failure is None
            }
        }),
{
    reveal_strlit("true");
    reveal_strlit("false");
    assert("true"@.len() != "false"@.len());
}

/// Fanout writing is on without the property and where the property is `true`, off where it is
/// `false`, and no other value is accepted.
pub proof fn fanout_is_on_unless_switched_off(
    property: Option<&str>,
    enabled: Result<bool, ProviderError>,
)
    requires
        call_ensures(crate::insert::fanout_enabled, (property,), enabled),
    ensures
        match property {
            None => enabled == Ok::<bool, ProviderError>(true),
            Some(value) => if value@ == "true"@ {
                enabled == Ok::<bool, ProviderError>(true)
            } else if value@ == "false"@ {
                enabled == Ok::<bool, ProviderError>(false)
            } else {
                &&& enabled matches Err(ProviderError::Configuration(text))
                &&& text@ == "Invalid value for "@ + "write.datafusion.fanout.enabled"@
                    + ", expected 'true' or 'false': "@ + crate::outside::bool_parse_error(value@)
            },
        },
{
    reveal_strlit("true");
    reveal_strlit("false");
    assert("true"@.len() != "false"@.len());
}

} // verus!
