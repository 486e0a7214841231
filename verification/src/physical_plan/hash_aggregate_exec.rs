//! The hash aggregate operator.

use crate::datasource::scan_gives;
use crate::datatypes::arrow_vector_builder::{build_vector, built, views_of};
use crate::datatypes::column_vector::{ColumnSpec, ColumnVector};
use crate::datatypes::record_batch::{batch_views, BatchSpec, RecordBatch};
use crate::datatypes::scalar::{same_value, view_of, Datum, ScalarValue};
use crate::datatypes::schema::{FieldSpec, Schema};
use crate::error::{QueryError, QueryFault};
use crate::physical_plan::expressions::aggregate_expression::{
    accumulated, final_of, Accumulator, AccumulatorState, AggregateExpression,
};
use crate::physical_plan::expressions::Expression;
use crate::physical_plan::projection_exec::{
    column_views, evaluate_all, evaluated_all, lemma_evaluation_failure_stays,
};
use crate::physical_plan::PhysicalPlan;
use vstd::prelude::*;

verus! {

/// Groups the rows of the input by the values of the group expressions, and
/// folds the aggregates over each group.
pub struct HashAggregateExec {
    pub input: Box<PhysicalPlan>,
    pub group_expr: Vec<Expression>,
    pub aggregate_expr: Vec<AggregateExpression>,
    pub schema: Schema,
}

/// A group as mathematics sees it: its key, and the states of its
/// accumulators.
pub struct GroupSpec {
    pub key: Seq<Option<Datum>>,
    pub states: Seq<AccumulatorState>,
}

/// A group: its key, and one accumulator for each aggregate.
pub struct Group {
    pub key: Vec<Option<ScalarValue>>,
    pub accumulators: Vec<Accumulator>,
}

/// The states of a run of accumulators.
pub open spec fn state_views(accumulators: Seq<Accumulator>) -> Seq<AccumulatorState> {
    accumulators.map_values(|a: Accumulator| a@)
}

impl View for Group {
    type V = GroupSpec;

    open spec fn view(&self) -> GroupSpec {
        GroupSpec { key: views_of(self.key@), states: state_views(self.accumulators@) }
    }
}

/// The views of a run of groups.
pub open spec fn group_views(groups: Seq<Group>) -> Seq<GroupSpec> {
    groups.map_values(|g: Group| g@)
}

/// The expressions whose values the aggregates fold.
pub open spec fn inputs_of(aggregates: Seq<AggregateExpression>) -> Seq<Expression> {
    aggregates.map_values(|a: AggregateExpression| a.input())
}

/// The states of the accumulators of a new group: each aggregate makes its
/// accumulator for the type that the schema declares for its result.
pub open spec fn initial_states(
    aggregates: Seq<AggregateExpression>,
    schema: Seq<FieldSpec>,
    offset: int,
) -> Seq<AccumulatorState> {
    Seq::new(
        aggregates.len(),
        |k: int| aggregates[k].initial_state(schema[offset + k].data_type),
    )
}

/// What a column holds in the row `r`: a null beyond its end.
pub open spec fn slot(c: ColumnSpec, r: int) -> Option<Datum> {
    if 0 <= r < c.items.len() {
        c.items[r]
    } else {
        None
    }
}

/// What a run of columns holds in the row `r`.
pub open spec fn row_of(columns: Seq<ColumnSpec>, r: int) -> Seq<Option<Datum>> {
    Seq::new(columns.len(), |j: int| slot(columns[j], r))
}

/// The place of the first group with the key `key`; the number of groups
/// where none has it.
pub open spec fn group_index(groups: Seq<GroupSpec>, key: Seq<Option<Datum>>) -> int
    decreases groups.len(),
{
    if groups.len() == 0 || groups[0].key == key {
        0
    } else {
        1 + group_index(groups.drop_first(), key)
    }
}

/// A place before which no group has the key, and which either holds such
/// a group or is the end, is `group_index`.
pub proof fn lemma_group_index_is(groups: Seq<GroupSpec>, key: Seq<Option<Datum>>, j: int)
    requires
        0 <= j <= groups.len(),
        forall|k: int| 0 <= k < j ==> (#[trigger] groups[k]).key != key,
        j < groups.len() ==> groups[j].key == key,
    ensures
        group_index(groups, key) == j,
    decreases groups.len(),
{
    if groups.len() > 0 && groups[0].key != key {
        let rest = groups.drop_first();
        lemma_group_index_is(rest, key, j - 1);
    }
}

/// The states after the first `n` accumulators took their value of a row:
/// the accumulator `k` takes `values[k]`. The first failure, from left to
/// right.
pub open spec fn fed(states: Seq<AccumulatorState>, values: Seq<Option<Datum>>, n: nat) -> Result<
    Seq<AccumulatorState>,
    QueryError,
>
    decreases n,
{
    if n == 0 {
        Ok(states)
    } else {
        match fed(states, values, (n - 1) as nat) {
            Err(e) => Err(e),
            Ok(s) => match accumulated(s[n - 1], values[n - 1]) {
                Ok(next) => Ok(s.update(n - 1, next)),
                Err(e) => Err(e),
            },
        }
    }
}

/// Feeding keeps the number of accumulators.
pub proof fn lemma_fed_len(states: Seq<AccumulatorState>, values: Seq<Option<Datum>>, n: nat)
    requires
        n <= states.len(),
    ensures
        fed(states, values, n) matches Ok(s) ==> s.len() == states.len(),
    decreases n,
{
    if n > 0 {
        lemma_fed_len(states, values, (n - 1) as nat);
    }
}

/// Accumulators whose first ones fail on a row fail as they do.
pub proof fn lemma_fed_failure_stays(
    states: Seq<AccumulatorState>,
    values: Seq<Option<Datum>>,
    n: nat,
    m: nat,
)
    requires
        n <= m,
        fed(states, values, n) is Err,
    ensures
        fed(states, values, m) == fed(states, values, n),
    decreases m - n,
{
    if n < m {
        lemma_fed_failure_stays(states, values, n, (m - 1) as nat);
    }
}

/// The groups after one more row: the row joins the first group with its
/// key, or a new group at the end, and the accumulators of the group take
/// the values of the row.
pub open spec fn row_added(
    groups: Seq<GroupSpec>,
    key: Seq<Option<Datum>>,
    values: Seq<Option<Datum>>,
    initial: Seq<AccumulatorState>,
) -> Result<Seq<GroupSpec>, QueryError> {
    let k = group_index(groups, key);
    let current = if k < groups.len() {
        groups
    } else {
        groups.push(GroupSpec { key, states: initial })
    };
    match fed(current[k].states, values, initial.len()) {
        Ok(s) => Ok(current.update(k, GroupSpec { key: current[k].key, states: s })),
        Err(e) => Err(e),
    }
}

/// The groups after the first `n` rows of a batch, whose group expressions
/// evaluated to `keys` and whose aggregate inputs evaluated to `values`.
pub open spec fn rows_added(
    groups: Seq<GroupSpec>,
    keys: Seq<ColumnSpec>,
    values: Seq<ColumnSpec>,
    initial: Seq<AccumulatorState>,
    n: nat,
) -> Result<Seq<GroupSpec>, QueryError>
    decreases n,
{
    if n == 0 {
        Ok(groups)
    } else {
        match rows_added(groups, keys, values, initial, (n - 1) as nat) {
            Err(e) => Err(e),
            Ok(g) => row_added(g, row_of(keys, n - 1), row_of(values, n - 1), initial),
        }
    }
}

/// Rows whose first ones fail fail as they do.
pub proof fn lemma_rows_failure_stays(
    groups: Seq<GroupSpec>,
    keys: Seq<ColumnSpec>,
    values: Seq<ColumnSpec>,
    initial: Seq<AccumulatorState>,
    n: nat,
    m: nat,
)
    requires
        n <= m,
        rows_added(groups, keys, values, initial, n) is Err,
    ensures
        rows_added(groups, keys, values, initial, m) == rows_added(
            groups,
            keys,
            values,
            initial,
            n,
        ),
    decreases m - n,
{
    if n < m {
        lemma_rows_failure_stays(groups, keys, values, initial, n, (m - 1) as nat);
    }
}

/// The groups after one more batch: the group expressions are evaluated,
/// then the inputs of the aggregates, then the rows are added in order.
pub open spec fn batch_added(
    groups: Seq<GroupSpec>,
    group_exprs: Seq<Expression>,
    aggregates: Seq<AggregateExpression>,
    initial: Seq<AccumulatorState>,
    b: BatchSpec,
) -> Result<Seq<GroupSpec>, QueryError> {
    match evaluated_all(group_exprs, b, group_exprs.len()) {
        Err(e) => Err(e),
        Ok(keys) => match evaluated_all(inputs_of(aggregates), b, aggregates.len()) {
            Err(e) => Err(e),
            Ok(values) => rows_added(groups, keys, values, initial, b.rows()),
        },
    }
}

/// The groups after a run of batches.
pub open spec fn batches_added(
    groups: Seq<GroupSpec>,
    group_exprs: Seq<Expression>,
    aggregates: Seq<AggregateExpression>,
    initial: Seq<AccumulatorState>,
    batches: Seq<BatchSpec>,
) -> Result<Seq<GroupSpec>, QueryError>
    decreases batches.len(),
{
    if batches.len() == 0 {
        Ok(groups)
    } else {
        match batches_added(groups, group_exprs, aggregates, initial, batches.drop_last()) {
            Err(e) => Err(e),
            Ok(g) => batch_added(g, group_exprs, aggregates, initial, batches.last()),
        }
    }
}

/// A run whose first batches fail fails as they do.
pub proof fn lemma_batches_failure_stays(
    groups: Seq<GroupSpec>,
    group_exprs: Seq<Expression>,
    aggregates: Seq<AggregateExpression>,
    initial: Seq<AccumulatorState>,
    batches: Seq<BatchSpec>,
    k: int,
)
    requires
        0 <= k <= batches.len(),
        batches_added(groups, group_exprs, aggregates, initial, batches.subrange(0, k)) is Err,
    ensures
        batches_added(groups, group_exprs, aggregates, initial, batches) == batches_added(
            groups,
            group_exprs,
            aggregates,
            initial,
            batches.subrange(0, k),
        ),
    decreases batches.len() - k,
{
    if k == batches.len() {
        assert(batches.subrange(0, k) =~= batches);
    } else {
        assert(batches.subrange(0, k + 1).drop_last() =~= batches.subrange(0, k));
        lemma_batches_failure_stays(groups, group_exprs, aggregates, initial, batches, k + 1);
    }
}

/// The values of the output column `c`: for a group expression the keys of
/// the groups at its place, for an aggregate the final values of its
/// accumulators; one row for each group, in the order in which the groups
/// came.
pub open spec fn output_values(groups: Seq<GroupSpec>, keys: int, c: int) -> Seq<Option<Datum>> {
    Seq::new(
        groups.len(),
        |g: int|
            if c < keys {
                groups[g].key[c]
            } else {
                final_of(groups[g].states[c - keys])
            },
    )
}

/// The first `n` columns of the output, each of the type that the schema
/// declares; the first failure, from left to right.
pub open spec fn output_columns(
    groups: Seq<GroupSpec>,
    schema: Seq<FieldSpec>,
    keys: int,
    n: nat,
) -> Result<Seq<ColumnSpec>, QueryError>
    decreases n,
{
    if n == 0 {
        Ok(Seq::empty())
    } else {
        match output_columns(groups, schema, keys, (n - 1) as nat) {
            Err(e) => Err(e),
            Ok(done) => match built(schema[n - 1].data_type, output_values(groups, keys, n - 1)) {
                Ok(c) => Ok(done.push(c)),
                Err(e) => Err(e),
            },
        }
    }
}

/// Columns whose first ones fail fail as they do.
pub proof fn lemma_output_failure_stays(
    groups: Seq<GroupSpec>,
    schema: Seq<FieldSpec>,
    keys: int,
    n: nat,
    m: nat,
)
    requires
        n <= m,
        output_columns(groups, schema, keys, n) is Err,
    ensures
        output_columns(groups, schema, keys, m) == output_columns(groups, schema, keys, n),
    decreases m - n,
{
    if n < m {
        lemma_output_failure_stays(groups, schema, keys, n, (m - 1) as nat);
    }
}

/// As many columns come out as expressions are evaluated.
pub proof fn lemma_evaluated_len(exprs: Seq<Expression>, b: BatchSpec, n: nat)
    ensures
        evaluated_all(exprs, b, n) matches Ok(columns) ==> columns.len() == n,
    decreases n,
{
    if n > 0 {
        lemma_evaluated_len(exprs, b, (n - 1) as nat);
    }
}

/// Whether every group has a key of `keys` values and `states`
/// accumulators.
pub open spec fn shaped(groups: Seq<GroupSpec>, keys: int, states: int) -> bool {
    forall|g: int|
        0 <= g < groups.len() ==> (#[trigger] groups[g]).key.len() == keys && groups[g].states.len()
            == states
}

/// What the aggregation of a run of batches gives: one batch, with the
/// schema of the operator and one row for each group. Fails where the
/// schema does not have one field for each expression, or an expression
/// fails on a batch, or an accumulator fails on a value, or a column
/// cannot be built.
pub open spec fn aggregated(
    group_exprs: Seq<Expression>,
    aggregates: Seq<AggregateExpression>,
    schema: Seq<FieldSpec>,
    batches: Seq<BatchSpec>,
) -> Result<Seq<BatchSpec>, QueryFault> {
    if schema.len() != group_exprs.len() + aggregates.len() {
        Err(QueryFault::LengthMismatch(schema.len() as usize, group_exprs.len() as usize))
    } else {
        match batches_added(
            Seq::empty(),
            group_exprs,
            aggregates,
            initial_states(aggregates, schema, group_exprs.len() as int),
            batches,
        ) {
            Err(e) => Err(e@),
            Ok(groups) => match output_columns(
                groups,
                schema,
                group_exprs.len() as int,
                schema.len(),
            ) {
                Ok(columns) => Ok(seq![BatchSpec { schema, columns }]),
                Err(e) => Err(e@),
            },
        }
    }
}

/// Whether two keys are the same, value by value.
fn keys_equal(a: &Vec<Option<ScalarValue>>, b: &Vec<Option<ScalarValue>>) -> (r: bool)
    ensures
        r == (views_of(a@) == views_of(b@)),
{
    if a.len() != b.len() {
        return false;
    }
    let mut i: usize = 0;
    while i < a.len()
        invariant
            i <= a.len(),
            a.len() == b.len(),
            forall|k: int| 0 <= k < i ==> views_of(a@)[k] == views_of(b@)[k],
        decreases a.len() - i,
    {
        if !same_value(&a[i], &b[i]) {
            assert(views_of(a@)[i as int] != views_of(b@)[i as int]);
            return false;
        }
        i = i + 1;
    }
    assert(views_of(a@) =~= views_of(b@));
    true
}

/// The place of the first group with the key; the number of groups where
/// none has it.
fn find_group(groups: &Vec<Group>, key: &Vec<Option<ScalarValue>>) -> (r: usize)
    ensures
        r == group_index(group_views(groups@), views_of(key@)),
        r <= groups@.len(),
{
    let mut i: usize = 0;
    while i < groups.len()
        invariant
            i <= groups.len(),
            forall|k: int| 0 <= k < i ==> (#[trigger] group_views(groups@)[k]).key != views_of(key@),
        decreases groups.len() - i,
    {
        if keys_equal(&groups[i].key, key) {
            proof {
                lemma_group_index_is(group_views(groups@), views_of(key@), i as int);
            }
            return i;
        }
        i = i + 1;
    }
    proof {
        lemma_group_index_is(group_views(groups@), views_of(key@), i as int);
    }
    i
}

/// The values of the row `r` of a run of columns.
fn row_values(columns: &Vec<ColumnVector>, r: usize) -> (row: Vec<Option<ScalarValue>>)
    ensures
        row@.len() == columns@.len(),
        views_of(row@) == row_of(column_views(columns@), r as int),
{
    let mut row: Vec<Option<ScalarValue>> = Vec::new();
    let mut j: usize = 0;
    while j < columns.len()
        invariant
            j <= columns.len(),
            row@.len() == j,
            forall|k: int|
                0 <= k < j ==> view_of(#[trigger] row@[k]) == slot(
                    column_views(columns@)[k],
                    r as int,
                ),
        decreases columns.len() - j,
    {
        row.push(columns[j].get_value(r));
        j = j + 1;
    }
    row
}

/// Gives each accumulator its value of a row.
fn feed(accumulators: &mut Vec<Accumulator>, values: Vec<Option<ScalarValue>>) -> (r: Result<
    (),
    QueryError,
>)
    requires
        old(accumulators)@.len() == values@.len(),
    ensures
        final(accumulators)@.len() == old(accumulators)@.len(),
        match fed(state_views(old(accumulators)@), views_of(values@), values@.len()) {
            Ok(s) => r is Ok && state_views(final(accumulators)@) == s,
            Err(e) => r is Err && r->Err_0 == e,
        },
{
    let ghost start = state_views(accumulators@);
    let ghost given = values@;
    let ghost inputs = views_of(values@);
    let n: usize = values.len();
    let mut k: usize = 0;
    for value in it: values
        invariant
            it.seq() == given,
            inputs == views_of(given),
            n == given.len(),
            k == it.index(),
            start == state_views(old(accumulators)@),
            old(accumulators)@.len() == n,
            accumulators@.len() == n,
            fed(start, inputs, k as nat) == Ok::<Seq<AccumulatorState>, QueryError>(
                state_views(accumulators@),
            ),
    {
        let ghost before = state_views(accumulators@);
        let accumulator = &mut accumulators[k];
        let step = accumulator.accumulate(value);
        match step {
            Ok(()) => {
                proof {
                    assert(state_views(accumulators@) =~= before.update(
                        k as int,
                        accumulators@[k as int]@,
                    ));
                }
            },
            Err(e) => {
                proof {
                    lemma_fed_failure_stays(start, inputs, (k + 1) as nat, n as nat);
                }
                return Err(e);
            },
        }
        k = k + 1;
    }
    Ok(())
}

impl HashAggregateExec {
    /// What the operator gives: a failure of the input, else the one batch
    /// of the groups of its rows.
    pub open spec fn executed(&self) -> Result<Seq<BatchSpec>, QueryFault>
        decreases self,
    {
        match self.input.executed() {
            Err(e) => Err(e),
            Ok(batches) => aggregated(
                self.group_expr@,
                self.aggregate_expr@,
                self.schema@,
                batches,
            ),
        }
    }

    /// The states of the accumulators of a new group.
    pub open spec fn initial(&self) -> Seq<AccumulatorState> {
        initial_states(self.aggregate_expr@, self.schema@, self.group_expr@.len() as int)
    }

    /// The schema of the batch.
    pub fn schema(&self) -> (r: Schema)
        ensures
            r@ == self.schema@,
    {
        self.schema.clone()
    }

    /// The accumulators of a new group.
    fn new_accumulators(&self) -> (r: Vec<Accumulator>)
        requires
            self.schema@.len() == self.group_expr@.len() + self.aggregate_expr@.len(),
        ensures
            state_views(r@) == self.initial(),
    {
        let offset: usize = self.group_expr.len();
        let total: usize = self.schema.fields.len();
        let mut out: Vec<Accumulator> = Vec::new();
        let mut k: usize = 0;
        while k < self.aggregate_expr.len()
            invariant
                k <= self.aggregate_expr.len(),
                offset == self.group_expr@.len(),
                total == self.schema@.len(),
                self.schema@.len() == self.group_expr@.len() + self.aggregate_expr@.len(),
                out@.len() == k,
                forall|i: int| 0 <= i < k ==> (#[trigger] out@[i])@ == self.initial()[i],
            decreases self.aggregate_expr.len() - k,
        {
            let t = self.schema.fields[offset + k].data_type;
            out.push(self.aggregate_expr[k].create_accumulator(t));
            k = k + 1;
        }
        out
    }

    /// Evaluates the inputs of the aggregates on a batch, from left to
    /// right.
    fn evaluate_inputs(&self, batch: &RecordBatch) -> (r: Result<Vec<ColumnVector>, QueryError>)
        ensures
            match evaluated_all(
                inputs_of(self.aggregate_expr@),
                batch@,
                self.aggregate_expr@.len(),
            ) {
                Ok(columns) => r is Ok && column_views(r->Ok_0@) == columns,
                Err(e) => r is Err && r->Err_0 == e,
            },
    {
        let ghost inputs = inputs_of(self.aggregate_expr@);
        let mut columns: Vec<ColumnVector> = Vec::new();
        let mut i: usize = 0;
        proof {
            assert(column_views(columns@) =~= Seq::<ColumnSpec>::empty());
        }
        while i < self.aggregate_expr.len()
            invariant
                i <= self.aggregate_expr.len(),
                inputs == inputs_of(self.aggregate_expr@),
                evaluated_all(inputs, batch@, i as nat) == Ok::<Seq<ColumnSpec>, QueryError>(
                    column_views(columns@),
                ),
            decreases self.aggregate_expr.len() - i,
        {
            let ghost before = column_views(columns@);
            let input = self.aggregate_expr[i].input_expression();
            match input.evaluate(batch) {
                Ok(c) => {
                    columns.push(c);
                    proof {
                        assert(column_views(columns@) =~= before.push(c@));
                    }
                },
                Err(e) => {
                    proof {
                        lemma_evaluation_failure_stays(inputs, batch@, (i + 1) as nat);
                    }
                    return Err(e);
                },
            }
            i = i + 1;
        }
        Ok(columns)
    }

    /// Adds one row to the groups.
    fn add_row(
        &self,
        groups: &mut Vec<Group>,
        key: Vec<Option<ScalarValue>>,
        values: Vec<Option<ScalarValue>>,
    ) -> (r: Result<(), QueryError>)
        requires
            self.schema@.len() == self.group_expr@.len() + self.aggregate_expr@.len(),
            values@.len() == self.aggregate_expr@.len(),
            shaped(
                group_views(old(groups)@),
                key@.len() as int,
                self.aggregate_expr@.len() as int,
            ),
        ensures
            match row_added(
                group_views(old(groups)@),
                views_of(key@),
                views_of(values@),
                self.initial(),
            ) {
                Ok(g) => r is Ok && group_views(final(groups)@) == g && shaped(
                    g,
                    key@.len() as int,
                    self.aggregate_expr@.len() as int,
                ),
                Err(e) => r is Err && r->Err_0 == e,
            },
    {
        let ghost before = group_views(groups@);
        let ghost width = key@.len() as int;
        let index: usize = find_group(groups, &key);
        if index == groups.len() {
            let accumulators = self.new_accumulators();
            let group = Group { key, accumulators };
            groups.push(group);
        }
        let ghost current = group_views(groups@);
        let group = &mut groups[index];
        match feed(&mut group.accumulators, values) {
            Ok(()) => {
                proof {
                    let after = group_views(groups@);
                    assert forall|g: int| 0 <= g < after.len() implies (#[trigger] after[g]).key.len()
                        == width && after[g].states.len() == self.aggregate_expr@.len() by {
                        if g != index {
                            if g < before.len() {
                                assert(current[g] == before[g]);
                            }
                        }
                    }
                }
                Ok(())
            },
            Err(e) => Err(e),
        }
    }

    /// Adds the rows of one batch to the groups.
    fn add_batch(&self, groups: &mut Vec<Group>, batch: &RecordBatch) -> (r: Result<
        (),
        QueryError,
    >)
        requires
            self.schema@.len() == self.group_expr@.len() + self.aggregate_expr@.len(),
            shaped(
                group_views(old(groups)@),
                self.group_expr@.len() as int,
                self.aggregate_expr@.len() as int,
            ),
        ensures
            match batch_added(
                group_views(old(groups)@),
                self.group_expr@,
                self.aggregate_expr@,
                self.initial(),
                batch@,
            ) {
                Ok(g) => r is Ok && group_views(final(groups)@) == g && shaped(
                    g,
                    self.group_expr@.len() as int,
                    self.aggregate_expr@.len() as int,
                ),
                Err(e) => r is Err && r->Err_0 == e,
            },
    {
        let ghost start = group_views(groups@);
        let group_keys = match evaluate_all(&self.group_expr, batch) {
            Ok(c) => c,
            Err(e) => {
                return Err(e);
            },
        };
        let aggr_input_values = match self.evaluate_inputs(batch) {
            Ok(c) => c,
            Err(e) => {
                return Err(e);
            },
        };
        let ghost keys = column_views(group_keys@);
        let ghost values = column_views(aggr_input_values@);
        proof {
            lemma_evaluated_len(self.group_expr@, batch@, self.group_expr@.len());
            lemma_evaluated_len(
                inputs_of(self.aggregate_expr@),
                batch@,
                self.aggregate_expr@.len(),
            );
        }
        let rows: usize = batch.row_count_or_zero();
        let mut row_index: usize = 0;
        while row_index < rows
            invariant
                row_index <= rows,
                rows == batch@.rows(),
                start == group_views(old(groups)@),
                self.schema@.len() == self.group_expr@.len() + self.aggregate_expr@.len(),
                keys == column_views(group_keys@),
                values == column_views(aggr_input_values@),
                keys.len() == self.group_expr@.len(),
                values.len() == self.aggregate_expr@.len(),
                evaluated_all(self.group_expr@, batch@, self.group_expr@.len()) == Ok::<
                    Seq<ColumnSpec>,
                    QueryError,
                >(keys),
                evaluated_all(
                    inputs_of(self.aggregate_expr@),
                    batch@,
                    self.aggregate_expr@.len(),
                ) == Ok::<Seq<ColumnSpec>, QueryError>(values),
                rows_added(start, keys, values, self.initial(), row_index as nat) == Ok::<
                    Seq<GroupSpec>,
                    QueryError,
                >(group_views(groups@)),
                shaped(
                    group_views(groups@),
                    self.group_expr@.len() as int,
                    self.aggregate_expr@.len() as int,
                ),
            decreases rows - row_index,
        {
            let row_key = row_values(&group_keys, row_index);
            let row_inputs = row_values(&aggr_input_values, row_index);
            match self.add_row(groups, row_key, row_inputs) {
                Ok(()) => {},
                Err(e) => {
                    proof {
                        lemma_rows_failure_stays(
                            start,
                            keys,
                            values,
                            self.initial(),
                            (row_index + 1) as nat,
                            rows as nat,
                        );
                    }
                    return Err(e);
                },
            }
            row_index = row_index + 1;
        }
        Ok(())
    }

    /// The values of one column of the output.
    fn column_values(&self, groups: &Vec<Group>, c: usize) -> (r: Vec<Option<ScalarValue>>)
        requires
            c < self.group_expr@.len() + self.aggregate_expr@.len(),
            shaped(
                group_views(groups@),
                self.group_expr@.len() as int,
                self.aggregate_expr@.len() as int,
            ),
        ensures
            views_of(r@) == output_values(
                group_views(groups@),
                self.group_expr@.len() as int,
                c as int,
            ),
    {
        let keys: usize = self.group_expr.len();
        let mut out: Vec<Option<ScalarValue>> = Vec::new();
        let mut g: usize = 0;
        while g < groups.len()
            invariant
                g <= groups.len(),
                keys == self.group_expr@.len(),
                c < self.group_expr@.len() + self.aggregate_expr@.len(),
                shaped(
                    group_views(groups@),
                    self.group_expr@.len() as int,
                    self.aggregate_expr@.len() as int,
                ),
                out@.len() == g,
                forall|i: int|
                    0 <= i < g ==> view_of(#[trigger] out@[i]) == output_values(
                        group_views(groups@),
                        keys as int,
                        c as int,
                    )[i],
            decreases groups.len() - g,
        {
            let group = &groups[g];
            assert(group_views(groups@)[g as int] == group@);
            let value = if c < keys {
                match &group.key[c] {
                    Some(v) => Some(v.clone()),
                    None => None,
                }
            } else {
                group.accumulators[c - keys].final_value()
            };
            out.push(value);
            g = g + 1;
        }
        out
    }

    /// Groups the rows of the batches that the input gave, and gives the
    /// one batch of the groups.
    pub fn aggregate(&self, batches: &Vec<RecordBatch>) -> (r: Result<
        Vec<RecordBatch>,
        QueryError,
    >)
        ensures
            scan_gives(
                r,
                aggregated(
                    self.group_expr@,
                    self.aggregate_expr@,
                    self.schema@,
                    batch_views(batches@),
                ),
            ),
    {
        let keys: usize = self.group_expr.len();
        let aggregates: usize = self.aggregate_expr.len();
        let fields: usize = self.schema.fields.len();
        if fields < keys || fields - keys != aggregates {
            return Err(QueryError::LengthMismatch(fields, keys));
        }
        let ghost all = batch_views(batches@);
        let mut groups: Vec<Group> = Vec::new();
        let mut b: usize = 0;
        proof {
            assert(group_views(groups@) =~= Seq::<GroupSpec>::empty());
        }
        while b < batches.len()
            invariant
                b <= batches.len(),
                all == batch_views(batches@),
                self.schema@.len() == self.group_expr@.len() + self.aggregate_expr@.len(),
                batches_added(
                    Seq::empty(),
                    self.group_expr@,
                    self.aggregate_expr@,
                    self.initial(),
                    all.subrange(0, b as int),
                ) == Ok::<Seq<GroupSpec>, QueryError>(group_views(groups@)),
                shaped(
                    group_views(groups@),
                    self.group_expr@.len() as int,
                    self.aggregate_expr@.len() as int,
                ),
            decreases batches.len() - b,
        {
            proof {
                assert(all.subrange(0, b + 1).drop_last() =~= all.subrange(0, b as int));
            }
            match self.add_batch(&mut groups, &batches[b]) {
                Ok(()) => {},
                Err(e) => {
                    proof {
                        lemma_batches_failure_stays(
                            Seq::empty(),
                            self.group_expr@,
                            self.aggregate_expr@,
                            self.initial(),
                            all,
                            b + 1,
                        );
                    }
                    return Err(e);
                },
            }
            b = b + 1;
        }
        proof {
            assert(all.subrange(0, b as int) =~= all);
        }
        let ghost found = group_views(groups@);
        let mut columns: Vec<ColumnVector> = Vec::new();
        let mut c: usize = 0;
        proof {
            assert(column_views(columns@) =~= Seq::<ColumnSpec>::empty());
        }
        while c < fields
            invariant
                c <= fields,
                fields == self.schema@.len(),
                keys == self.group_expr@.len(),
                self.schema@.len() == self.group_expr@.len() + self.aggregate_expr@.len(),
                found == group_views(groups@),
                all == batch_views(batches@),
                batches_added(
                    Seq::empty(),
                    self.group_expr@,
                    self.aggregate_expr@,
                    self.initial(),
                    all,
                ) == Ok::<Seq<GroupSpec>, QueryError>(found),
                shaped(found, self.group_expr@.len() as int, self.aggregate_expr@.len() as int),
                output_columns(found, self.schema@, keys as int, c as nat) == Ok::<
                    Seq<ColumnSpec>,
                    QueryError,
                >(column_views(columns@)),
            decreases fields - c,
        {
            let values = self.column_values(&groups, c);
            let ghost before = column_views(columns@);
            match build_vector(self.schema.fields[c].data_type, &values) {
                Ok(column) => {
                    columns.push(column);
                    proof {
                        assert(column_views(columns@) =~= before.push(column@));
                    }
                },
                Err(e) => {
                    proof {
                        lemma_output_failure_stays(
                            found,
                            self.schema@,
                            keys as int,
                            (c + 1) as nat,
                            fields as nat,
                        );
                    }
                    return Err(e);
                },
            }
            c = c + 1;
        }
        let output_batch = RecordBatch { schema: self.schema.clone(), fields: columns };
        let mut out: Vec<RecordBatch> = Vec::new();
        out.push(output_batch);
        proof {
            assert(batch_views(out@) =~= seq![output_batch@]);
        }
        Ok(out)
    }

    /// Runs the input and aggregates its batches.
    pub fn execute(&self) -> (r: Result<Vec<RecordBatch>, QueryError>)
        ensures
            scan_gives(r, self.executed()),
        decreases self,
    {
        match self.input.execute() {
            Ok(batches) => self.aggregate(&batches),
            Err(e) => Err(e),
        }
    }
}

} // verus!
