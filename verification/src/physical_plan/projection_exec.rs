//! The projection operator.

use crate::datasource::scan_gives;
use crate::datatypes::column_vector::{ColumnSpec, ColumnVector};
use crate::datatypes::record_batch::{batch_views, BatchSpec, RecordBatch};
use crate::datatypes::schema::{FieldSpec, Schema};
use crate::error::{QueryError, QueryFault};
use crate::physical_plan::expressions::Expression;
use crate::physical_plan::PhysicalPlan;
use vstd::prelude::*;

verus! {

/// For each batch of the input, the columns that the expressions evaluate
/// to, under a given schema.
pub struct ProjectionExec {
    pub input: Box<PhysicalPlan>,
    pub schema: Schema,
    pub expr: Vec<Expression>,
}

/// What the first `n` expressions evaluate to on a batch; the first
/// failure, from left to right.
pub open spec fn evaluated_all(exprs: Seq<Expression>, b: BatchSpec, n: nat) -> Result<
    Seq<ColumnSpec>,
    QueryError,
>
    decreases n,
{
    if n == 0 {
        Ok(Seq::empty())
    } else {
        match evaluated_all(exprs, b, (n - 1) as nat) {
            Err(e) => Err(e),
            Ok(done) => match exprs[n - 1].evaluated(b) {
                Ok(c) => Ok(done.push(c)),
                Err(e) => Err(e),
            },
        }
    }
}

/// Expressions whose first ones fail on a batch fail as they do.
pub proof fn lemma_evaluation_failure_stays(exprs: Seq<Expression>, b: BatchSpec, n: nat)
    requires
        n <= exprs.len(),
        evaluated_all(exprs, b, n) is Err,
    ensures
        evaluated_all(exprs, b, exprs.len()) == evaluated_all(exprs, b, n),
    decreases exprs.len() - n,
{
    if n < exprs.len() {
        lemma_evaluation_failure_stays(exprs, b, n + 1);
    }
}

/// The views of a run of columns.
pub open spec fn column_views(columns: Seq<ColumnVector>) -> Seq<ColumnSpec> {
    columns.map_values(|c: ColumnVector| c@)
}

/// Evaluates the expressions on a batch, from left to right.
pub fn evaluate_all(exprs: &Vec<Expression>, batch: &RecordBatch) -> (r: Result<
    Vec<ColumnVector>,
    QueryError,
>)
    ensures
        match evaluated_all(exprs@, batch@, exprs@.len()) {
            Ok(columns) => r is Ok && column_views(r->Ok_0@) == columns,
            Err(e) => r is Err && r->Err_0 == e,
        },
{
    let mut columns: Vec<ColumnVector> = Vec::new();
    let mut i: usize = 0;
    proof {
        assert(column_views(columns@) =~= Seq::<ColumnSpec>::empty());
    }
    while i < exprs.len()
        invariant
            i <= exprs.len(),
            evaluated_all(exprs@, batch@, i as nat) == Ok::<Seq<ColumnSpec>, QueryError>(
                column_views(columns@),
            ),
        decreases exprs.len() - i,
    {
        let ghost before = column_views(columns@);
        match exprs[i].evaluate(batch) {
            Ok(c) => {
                columns.push(c);
                proof {
                    assert(column_views(columns@) =~= before.push(c@));
                }
            },
            Err(e) => {
                proof {
                    lemma_evaluation_failure_stays(exprs@, batch@, (i + 1) as nat);
                }
                return Err(e);
            },
        }
        i = i + 1;
    }
    Ok(columns)
}

/// The batch that a projection makes of one batch.
pub open spec fn projected_batch(exprs: Seq<Expression>, schema: Seq<FieldSpec>, b: BatchSpec) -> Result<
    BatchSpec,
    QueryFault,
> {
    match evaluated_all(exprs, b, exprs.len()) {
        Ok(columns) => Ok(BatchSpec { schema, columns }),
        Err(e) => Err(e@),
    }
}

/// The batches that a projection makes of a run of batches; the first
/// failure stops the run.
pub open spec fn projected_batches(
    exprs: Seq<Expression>,
    schema: Seq<FieldSpec>,
    batches: Seq<BatchSpec>,
) -> Result<Seq<BatchSpec>, QueryFault>
    decreases batches.len(),
{
    if batches.len() == 0 {
        Ok(Seq::empty())
    } else {
        match projected_batches(exprs, schema, batches.drop_last()) {
            Err(e) => Err(e),
            Ok(done) => match projected_batch(exprs, schema, batches.last()) {
                Ok(b) => Ok(done.push(b)),
                Err(e) => Err(e),
            },
        }
    }
}

/// A run whose first batches fail fails as they do.
pub proof fn lemma_projection_failure_stays(
    exprs: Seq<Expression>,
    schema: Seq<FieldSpec>,
    batches: Seq<BatchSpec>,
    k: int,
)
    requires
        0 <= k <= batches.len(),
        projected_batches(exprs, schema, batches.subrange(0, k)) is Err,
    ensures
        projected_batches(exprs, schema, batches) == projected_batches(
            exprs,
            schema,
            batches.subrange(0, k),
        ),
    decreases batches.len() - k,
{
    if k == batches.len() {
        assert(batches.subrange(0, k) =~= batches);
    } else {
        assert(batches.subrange(0, k + 1).drop_last() =~= batches.subrange(0, k));
        lemma_projection_failure_stays(exprs, schema, batches, k + 1);
    }
}

/// The expressions that refer to the columns of a batch, one after the
/// other.
pub open spec fn all_columns_of(n: nat) -> Seq<Expression> {
    Seq::new(
        n,
        |i: int|
            Expression::Column(
                crate::physical_plan::expressions::column_expression::ColumnExpression {
                    i: i as usize,
                },
            ),
    )
}

/// The references to the first columns of a batch evaluate to those
/// columns.
pub proof fn lemma_columns_evaluate_to_themselves(b: BatchSpec, n: nat, k: nat)
    requires
        k <= n,
        n <= b.columns.len(),
        n <= usize::MAX,
    ensures
        evaluated_all(all_columns_of(n), b, k) == Ok::<Seq<ColumnSpec>, QueryError>(
            b.columns.subrange(0, k as int),
        ),
    decreases k,
{
    if k > 0 {
        lemma_columns_evaluate_to_themselves(b, n, (k - 1) as nat);
        assert(b.columns.subrange(0, k as int) =~= b.columns.subrange(0, k - 1).push(
            b.columns[k - 1],
        ));
    } else {
        assert(b.columns.subrange(0, 0) =~= Seq::<ColumnSpec>::empty());
    }
}

/// The projection of a batch onto all its columns, in order, is the batch:
/// the same columns, under the schema of the projection.
pub proof fn theorem_projection_of_all_columns_keeps_rows(schema: Seq<FieldSpec>, b: BatchSpec)
    requires
        b.columns.len() <= usize::MAX,
    ensures
        projected_batch(all_columns_of(b.columns.len()), schema, b) == Ok::<BatchSpec, QueryFault>(
            BatchSpec { schema, columns: b.columns },
        ),
{
    lemma_columns_evaluate_to_themselves(b, b.columns.len(), b.columns.len());
    assert(b.columns.subrange(0, b.columns.len() as int) =~= b.columns);
}

impl ProjectionExec {
    /// What the operator gives: a failure of the input, else the batches
    /// of the input, each projected.
    pub open spec fn executed(&self) -> Result<Seq<BatchSpec>, QueryFault>
        decreases self,
    {
        match self.input.executed() {
            Err(e) => Err(e),
            Ok(batches) => projected_batches(self.expr@, self.schema@, batches),
        }
    }

    /// The schema of the batches.
    pub fn schema(&self) -> (r: Schema)
        ensures
            r@ == self.schema@,
    {
        self.schema.clone()
    }

    /// Projects the batches that the input gave.
    pub fn project(&self, batches: &Vec<RecordBatch>) -> (r: Result<Vec<RecordBatch>, QueryError>)
        ensures
            scan_gives(r, projected_batches(self.expr@, self.schema@, batch_views(batches@))),
    {
        let ghost all = batch_views(batches@);
        let mut out: Vec<RecordBatch> = Vec::new();
        let mut b: usize = 0;
        proof {
            assert(batch_views(out@) =~= Seq::<BatchSpec>::empty());
        }
        while b < batches.len()
            invariant
                b <= batches.len(),
                all == batch_views(batches@),
                projected_batches(self.expr@, self.schema@, all.subrange(0, b as int)) == Ok::<
                    Seq<BatchSpec>,
                    QueryFault,
                >(batch_views(out@)),
            decreases batches.len() - b,
        {
            proof {
                assert(all.subrange(0, b + 1).drop_last() =~= all.subrange(0, b as int));
            }
            let ghost before = batch_views(out@);
            match evaluate_all(&self.expr, &batches[b]) {
                Ok(columns) => {
                    let batch = RecordBatch { schema: self.schema.clone(), fields: columns };
                    out.push(batch);
                    proof {
                        assert(batch_views(out@) =~= before.push(batch@));
                    }
                },
                Err(e) => {
                    proof {
                        lemma_projection_failure_stays(self.expr@, self.schema@, all, b + 1);
                    }
                    return Err(e);
                },
            }
            b = b + 1;
        }
        proof {
            assert(all.subrange(0, b as int) =~= all);
        }
        Ok(out)
    }

    /// Runs the input and projects its batches.
    pub fn execute(&self) -> (r: Result<Vec<RecordBatch>, QueryError>)
        ensures
            scan_gives(r, self.executed()),
        decreases self,
    {
        match self.input.execute() {
            Ok(batches) => self.project(&batches),
            Err(e) => Err(e),
        }
    }
}

} // verus!
