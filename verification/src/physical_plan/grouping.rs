//! What the groups of an aggregation are: one for each key, in the order
//! in which the keys came.

use crate::datatypes::column_vector::ColumnSpec;
use crate::datatypes::record_batch::BatchSpec;
use crate::datatypes::scalar::Datum;
use crate::physical_plan::expressions::aggregate_expression::{AccumulatorState, AggregateExpression};
use crate::physical_plan::expressions::Expression;
use crate::physical_plan::hash_aggregate_exec::{
    batch_added, batches_added, group_index, inputs_of, row_added, row_of, rows_added, GroupSpec,
};
use crate::physical_plan::projection_exec::evaluated_all;
use vstd::prelude::*;

verus! {

/// Whether no two groups have the same key.
pub open spec fn distinct_keys(groups: Seq<GroupSpec>) -> bool {
    forall|i: int, j: int|
        0 <= i < j < groups.len() ==> (#[trigger] groups[i]).key != (#[trigger] groups[j]).key
}

/// Whether some group has the key.
pub open spec fn has_key(groups: Seq<GroupSpec>, key: Seq<Option<Datum>>) -> bool {
    exists|i: int| 0 <= i < groups.len() && (#[trigger] groups[i]).key == key
}

/// `group_index` is the least place of a group with the key.
pub proof fn lemma_group_index(groups: Seq<GroupSpec>, key: Seq<Option<Datum>>)
    ensures
        0 <= group_index(groups, key) <= groups.len(),
        forall|k: int| 0 <= k < group_index(groups, key) ==> (#[trigger] groups[k]).key != key,
        group_index(groups, key) < groups.len() ==> groups[group_index(groups, key)].key == key,
    decreases groups.len(),
{
    if groups.len() > 0 && groups[0].key != key {
        let rest = groups.drop_first();
        lemma_group_index(rest, key);
        assert forall|k: int| 0 <= k < group_index(groups, key) implies (#[trigger] groups[k]).key
            != key by {
            if k > 0 {
                assert(rest[k - 1] == groups[k]);
            }
        }
    }
}

/// One more row keeps the keys of the groups as they are and apart, and
/// its own key is the key of a group afterwards.
pub proof fn lemma_row_added(
    groups: Seq<GroupSpec>,
    key: Seq<Option<Datum>>,
    values: Seq<Option<Datum>>,
    initial: Seq<AccumulatorState>,
)
    requires
        distinct_keys(groups),
    ensures
        row_added(groups, key, values, initial) matches Ok(after) ==> distinct_keys(after)
            && has_key(after, key) && after.len() >= groups.len() && (forall|i: int|
            0 <= i < groups.len() ==> (#[trigger] after[i]).key == groups[i].key) && (forall|
            i: int,
        |
            groups.len() <= i < after.len() ==> (#[trigger] after[i]).key == key),
{
    lemma_group_index(groups, key);
    if row_added(groups, key, values, initial) is Ok {
        let after = row_added(groups, key, values, initial)->Ok_0;
        let k = group_index(groups, key);
        assert(after[k].key == key);
    }
}

/// The rows of a batch keep the keys of the groups apart; the groups that
/// were there stay in their places, and every row has its group.
pub proof fn lemma_rows_added(
    groups: Seq<GroupSpec>,
    keys: Seq<ColumnSpec>,
    values: Seq<ColumnSpec>,
    initial: Seq<AccumulatorState>,
    n: nat,
)
    requires
        distinct_keys(groups),
    ensures
        rows_added(groups, keys, values, initial, n) matches Ok(after) ==> distinct_keys(after)
            && after.len() >= groups.len() && (forall|i: int|
            0 <= i < groups.len() ==> (#[trigger] after[i]).key == groups[i].key) && (forall|
            r: int,
        |
            0 <= r < n ==> has_key(after, #[trigger] row_of(keys, r))),
    decreases n,
{
    if n > 0 {
        lemma_rows_added(groups, keys, values, initial, (n - 1) as nat);
        if rows_added(groups, keys, values, initial, (n - 1) as nat) is Ok {
            let before = rows_added(groups, keys, values, initial, (n - 1) as nat)->Ok_0;
            lemma_row_added(before, row_of(keys, n - 1), row_of(values, n - 1), initial);
            if rows_added(groups, keys, values, initial, n) is Ok {
                let after = rows_added(groups, keys, values, initial, n)->Ok_0;
                assert forall|r: int| 0 <= r < n implies has_key(
                    after,
                    #[trigger] row_of(keys, r),
                ) by {
                    if r < n - 1 {
                        let i = choose|i: int|
                            0 <= i < before.len() && (#[trigger] before[i]).key == row_of(keys, r);
                        assert(after[i].key == row_of(keys, r));
                    }
                }
            }
        }
    }
}

/// The groups of an aggregation have different keys: the batches of the
/// input make one group for each key.
pub proof fn theorem_one_group_for_each_key(
    group_exprs: Seq<Expression>,
    aggregates: Seq<AggregateExpression>,
    initial: Seq<AccumulatorState>,
    batches: Seq<BatchSpec>,
)
    ensures
        batches_added(Seq::empty(), group_exprs, aggregates, initial, batches) matches Ok(groups)
            ==> distinct_keys(groups),
    decreases batches.len(),
{
    if batches.len() > 0 {
        theorem_one_group_for_each_key(group_exprs, aggregates, initial, batches.drop_last());
        let before = batches_added(
            Seq::empty(),
            group_exprs,
            aggregates,
            initial,
            batches.drop_last(),
        );
        if before is Ok {
            let b = batches.last();
            let keys = evaluated_all(group_exprs, b, group_exprs.len());
            let values = evaluated_all(inputs_of(aggregates), b, aggregates.len());
            if keys is Ok && values is Ok {
                lemma_rows_added(before->Ok_0, keys->Ok_0, values->Ok_0, initial, b.rows());
            }
        }
    }
}

/// Every row of a batch has its group: once a batch is added, the key of
/// each of its rows is the key of a group.
pub proof fn theorem_every_row_has_its_group(
    groups: Seq<GroupSpec>,
    group_exprs: Seq<Expression>,
    aggregates: Seq<AggregateExpression>,
    initial: Seq<AccumulatorState>,
    b: BatchSpec,
)
    requires
        distinct_keys(groups),
        batch_added(groups, group_exprs, aggregates, initial, b) is Ok,
    ensures
        forall|r: int|
            0 <= r < b.rows() ==> has_key(
                batch_added(groups, group_exprs, aggregates, initial, b)->Ok_0,
                #[trigger] row_of(evaluated_all(group_exprs, b, group_exprs.len())->Ok_0, r),
            ),
{
    let keys = evaluated_all(group_exprs, b, group_exprs.len());
    let values = evaluated_all(inputs_of(aggregates), b, aggregates.len());
    lemma_rows_added(groups, keys->Ok_0, values->Ok_0, initial, b.rows());
}

} // verus!
