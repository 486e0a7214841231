//! The selection operator.

use crate::datasource::scan_gives;
use crate::datatypes::arrow_types::ArrowType;
use crate::datatypes::arrow_vector_builder::{build_vector, built, views_of};
use crate::datatypes::column_vector::{ColumnSpec, ColumnVector};
use crate::datatypes::record_batch::{batch_views, BatchSpec, RecordBatch};
use crate::datatypes::scalar::{Datum, ScalarValue};
use crate::error::{QueryError, QueryFault};
use crate::physical_plan::expressions::Expression;
use crate::physical_plan::projection_exec::column_views;
use crate::datatypes::schema::Schema;
use crate::physical_plan::{schema_gives, PhysicalPlan};
use vstd::prelude::*;

verus! {

/// The rows of the input for which the expression is true.
pub struct SelectionExec {
    pub input: Box<PhysicalPlan>,
    pub expr: Expression,
}

/// Whether a slot of a selection is true.
pub open spec fn is_true(slot: Option<Datum>) -> bool {
    slot == Some(Datum::Boolean(true))
}

/// The values of a column at the places among the first `n` where the
/// selection is true, in order; a place beyond the end of the column gives
/// a null.
pub open spec fn picked(values: Seq<Option<Datum>>, selection: Seq<Option<Datum>>, n: nat) -> Seq<
    Option<Datum>,
>
    decreases n,
{
    if n == 0 {
        Seq::empty()
    } else {
        let before = picked(values, selection, (n - 1) as nat);
        if n - 1 < selection.len() && is_true(selection[n - 1]) {
            before.push(
                if n - 1 < values.len() {
                    values[n - 1]
                } else {
                    None
                },
            )
        } else {
            before
        }
    }
}

/// The column of the rows of `v` for which the selection is true: a column
/// of the type of `v`.
pub open spec fn filtered(v: ColumnSpec, selection: ColumnSpec) -> Result<ColumnSpec, QueryError> {
    built(v.data_type, picked(v.items, selection.items, selection.items.len()))
}

/// The first `n` columns of a batch, each filtered; the first failure, from
/// left to right.
pub open spec fn filtered_columns(columns: Seq<ColumnSpec>, selection: ColumnSpec, n: nat) -> Result<
    Seq<ColumnSpec>,
    QueryError,
>
    decreases n,
{
    if n == 0 {
        Ok(Seq::empty())
    } else {
        match filtered_columns(columns, selection, (n - 1) as nat) {
            Err(e) => Err(e),
            Ok(done) => match filtered(columns[n - 1], selection) {
                Ok(c) => Ok(done.push(c)),
                Err(e) => Err(e),
            },
        }
    }
}

/// Columns whose first ones fail to filter fail as they do.
pub proof fn lemma_filter_failure_stays(columns: Seq<ColumnSpec>, selection: ColumnSpec, n: nat)
    requires
        n <= columns.len(),
        filtered_columns(columns, selection, n) is Err,
    ensures
        filtered_columns(columns, selection, columns.len()) == filtered_columns(
            columns,
            selection,
            n,
        ),
    decreases columns.len() - n,
{
    if n < columns.len() {
        lemma_filter_failure_stays(columns, selection, n + 1);
    }
}

/// The batch that a selection makes of one batch: the same schema, and of
/// every column the rows for which the expression is true.
pub open spec fn selected_batch(expr: Expression, b: BatchSpec) -> Result<BatchSpec, QueryFault> {
    match expr.evaluated(b) {
        Err(e) => Err(e@),
        Ok(selection) => match filtered_columns(b.columns, selection, b.columns.len()) {
            Ok(columns) => Ok(BatchSpec { schema: b.schema, columns }),
            Err(e) => Err(e@),
        },
    }
}

/// The batches that a selection makes of a run of batches; the first
/// failure stops the run.
pub open spec fn selected_batches(expr: Expression, batches: Seq<BatchSpec>) -> Result<
    Seq<BatchSpec>,
    QueryFault,
>
    decreases batches.len(),
{
    if batches.len() == 0 {
        Ok(Seq::empty())
    } else {
        match selected_batches(expr, batches.drop_last()) {
            Err(e) => Err(e),
            Ok(done) => match selected_batch(expr, batches.last()) {
                Ok(b) => Ok(done.push(b)),
                Err(e) => Err(e),
            },
        }
    }
}

/// A run whose first batches fail fails as they do.
pub proof fn lemma_selection_failure_stays(expr: Expression, batches: Seq<BatchSpec>, k: int)
    requires
        0 <= k <= batches.len(),
        selected_batches(expr, batches.subrange(0, k)) is Err,
    ensures
        selected_batches(expr, batches) == selected_batches(expr, batches.subrange(0, k)),
    decreases batches.len() - k,
{
    if k == batches.len() {
        assert(batches.subrange(0, k) =~= batches);
    } else {
        assert(batches.subrange(0, k + 1).drop_last() =~= batches.subrange(0, k));
        lemma_selection_failure_stays(expr, batches, k + 1);
    }
}

/// The rows of the column `v` for which `selection` is true, in order.
pub fn filter(v: &ColumnVector, selection: &ColumnVector) -> (r: Result<ColumnVector, QueryError>)
    ensures
        match filtered(v@, selection@) {
            Ok(c) => r is Ok && r->Ok_0@ == c,
            Err(e) => r is Err && r->Err_0 == e,
        },
{
    let n: usize = selection.size();
    let mut values: Vec<Option<ScalarValue>> = Vec::new();
    let mut i: usize = 0;
    while i < n
        invariant
            i <= n,
            n == selection.items().len(),
            views_of(values@) == picked(v.items(), selection.items(), i as nat),
        decreases n - i,
    {
        let keep: bool = match selection.get_value(i) {
            Some(ScalarValue::Boolean(b)) => b,
            _ => false,
        };
        if keep {
            let value = v.get_value(i);
            values.push(value);
        }
        i = i + 1;
    }
    build_vector(v.get_type(), &values)
}

/// Where the selection is true in every row, the values that are picked
/// are the values of the column.
pub proof fn lemma_picked_all(values: Seq<Option<Datum>>, selection: Seq<Option<Datum>>, n: nat)
    requires
        n <= values.len(),
        n <= selection.len(),
        forall|i: int| 0 <= i < selection.len() ==> is_true(#[trigger] selection[i]),
    ensures
        picked(values, selection, n) == values.subrange(0, n as int),
    decreases n,
{
    if n > 0 {
        lemma_picked_all(values, selection, (n - 1) as nat);
    }
}

/// A selection that is true in every row keeps a column as it is: the
/// filtered column has the type and the values of the column, for every
/// column that the library can build.
pub proof fn theorem_selection_by_true_keeps_column(v: ColumnSpec, selection: ColumnSpec)
    requires
        v.valid(),
        selection.items.len() == v.items.len(),
        forall|i: int| 0 <= i < selection.items.len() ==> is_true(#[trigger] selection.items[i]),
    ensures
        filtered(v, selection) == Ok::<ColumnSpec, QueryError>(v),
{
    lemma_picked_all(v.items, selection.items, v.items.len());
    assert(v.items.subrange(0, v.items.len() as int) =~= v.items);
    assert(crate::datatypes::arrow_vector_builder::stored_all(v.data_type, v.items) =~= v.items);
}

/// A selection that is true in every row keeps every column that was
/// built.
pub proof fn theorem_selection_by_true_keeps_built_column(
    t: ArrowType,
    values: Seq<Option<Datum>>,
    selection: ColumnSpec,
)
    requires
        built(t, values) is Ok,
        selection.items.len() == values.len(),
        forall|i: int| 0 <= i < selection.items.len() ==> is_true(#[trigger] selection.items[i]),
    ensures
        filtered(built(t, values)->Ok_0, selection) == Ok::<ColumnSpec, QueryError>(
            built(t, values)->Ok_0,
        ),
{
    theorem_selection_by_true_keeps_column(built(t, values)->Ok_0, selection);
}

/// A selection whose expression is true in every row keeps a batch as it
/// is: the same schema and, column by column, the same rows.
pub proof fn theorem_selection_by_true_keeps_batch(expr: Expression, b: BatchSpec)
    requires
        expr.evaluated(b) is Ok,
        expr.evaluated(b)->Ok_0.items.len() == b.rows(),
        forall|i: int|
            0 <= i < b.rows() ==> is_true(#[trigger] expr.evaluated(b)->Ok_0.items[i]),
        forall|j: int|
            0 <= j < b.columns.len() ==> (#[trigger] b.columns[j]).valid() && b.columns[j].items.len()
                == b.rows(),
    ensures
        selected_batch(expr, b) == Ok::<BatchSpec, QueryFault>(b),
{
    let selection = expr.evaluated(b)->Ok_0;
    lemma_filtered_all(b.columns, selection, b.columns.len());
    assert(b.columns.subrange(0, b.columns.len() as int) =~= b.columns);
}

/// Where the selection is true in every row, the first columns of a batch
/// filter to themselves.
proof fn lemma_filtered_all(columns: Seq<ColumnSpec>, selection: ColumnSpec, n: nat)
    requires
        n <= columns.len(),
        forall|i: int| 0 <= i < selection.items.len() ==> is_true(#[trigger] selection.items[i]),
        forall|j: int|
            0 <= j < columns.len() ==> (#[trigger] columns[j]).valid() && columns[j].items.len()
                == selection.items.len(),
    ensures
        filtered_columns(columns, selection, n) == Ok::<Seq<ColumnSpec>, QueryError>(
            columns.subrange(0, n as int),
        ),
    decreases n,
{
    if n > 0 {
        lemma_filtered_all(columns, selection, (n - 1) as nat);
        theorem_selection_by_true_keeps_column(columns[n - 1], selection);
        assert(columns.subrange(0, n as int) =~= columns.subrange(0, n - 1).push(columns[n - 1]));
    } else {
        assert(columns.subrange(0, 0) =~= Seq::<ColumnSpec>::empty());
    }
}

impl SelectionExec {
    /// What the operator gives: a failure of the input, else the batches
    /// of the input, each filtered.
    pub open spec fn executed(&self) -> Result<Seq<BatchSpec>, QueryFault>
        decreases self,
    {
        match self.input.executed() {
            Err(e) => Err(e),
            Ok(batches) => selected_batches(self.expr, batches),
        }
    }

    /// The schema of the batches: that of the input.
    pub fn schema(&self) -> (r: Result<Schema, QueryError>)
        ensures
            schema_gives(r, self.input.declared()),
        decreases self,
    {
        self.input.schema()
    }

    /// Filters one batch.
    pub fn select_batch(&self, batch: &RecordBatch) -> (r: Result<RecordBatch, QueryError>)
        ensures
            match selected_batch(self.expr, batch@) {
                Ok(b) => r is Ok && r->Ok_0@ == b,
                Err(e) => r is Err && r->Err_0@ == e,
            },
    {
        let result = match self.expr.evaluate(batch) {
            Ok(c) => c,
            Err(e) => {
                return Err(e);
            },
        };
        let column_count: usize = batch.fields.len();
        let mut filtered_fields: Vec<ColumnVector> = Vec::new();
        let mut i: usize = 0;
        proof {
            assert(column_views(filtered_fields@) =~= Seq::<ColumnSpec>::empty());
        }
        while i < column_count
            invariant
                i <= column_count,
                column_count == batch.fields@.len(),
                column_count == batch@.columns.len(),
                self.expr.evaluated(batch@) == Ok::<ColumnSpec, QueryError>(result@),
                filtered_columns(batch@.columns, result@, i as nat) == Ok::<
                    Seq<ColumnSpec>,
                    QueryError,
                >(column_views(filtered_fields@)),
            decreases column_count - i,
        {
            let ghost before = column_views(filtered_fields@);
            match filter(&batch.fields[i], &result) {
                Ok(c) => {
                    filtered_fields.push(c);
                    proof {
                        assert(column_views(filtered_fields@) =~= before.push(c@));
                    }
                },
                Err(e) => {
                    proof {
                        lemma_filter_failure_stays(batch@.columns, result@, (i + 1) as nat);
                    }
                    return Err(e);
                },
            }
            i = i + 1;
        }
        Ok(RecordBatch { schema: batch.schema.clone(), fields: filtered_fields })
    }

    /// Filters the batches that the input gave.
    pub fn select(&self, batches: &Vec<RecordBatch>) -> (r: Result<Vec<RecordBatch>, QueryError>)
        ensures
            scan_gives(r, selected_batches(self.expr, batch_views(batches@))),
    {
        let ghost all = batch_views(batches@);
        let mut out: Vec<RecordBatch> = Vec::new();
        let mut b: usize = 0;
        proof {
            assert(batch_views(out@) =~= Seq::<BatchSpec>::empty());
        }
        while b < batches.len()
            invariant
                b <= batches.len(),
                all == batch_views(batches@),
                selected_batches(self.expr, all.subrange(0, b as int)) == Ok::<
                    Seq<BatchSpec>,
                    QueryFault,
                >(batch_views(out@)),
            decreases batches.len() - b,
        {
            proof {
                assert(all.subrange(0, b + 1).drop_last() =~= all.subrange(0, b as int));
            }
            let ghost before = batch_views(out@);
            match self.select_batch(&batches[b]) {
                Ok(batch) => {
                    out.push(batch);
                    proof {
                        assert(batch_views(out@) =~= before.push(batch@));
                    }
                },
                Err(e) => {
                    proof {
                        lemma_selection_failure_stays(self.expr, all, b + 1);
                    }
                    return Err(e);
                },
            }
            b = b + 1;
        }
        proof {
            assert(all.subrange(0, b as int) =~= all);
        }
        Ok(out)
    }

    /// Runs the input and filters its batches.
    pub fn execute(&self) -> (r: Result<Vec<RecordBatch>, QueryError>)
        ensures
            scan_gives(r, self.executed()),
        decreases self,
    {
        match self.input.execute() {
            Ok(batches) => self.select(&batches),
            Err(e) => Err(e),
        }
    }
}

} // verus!
