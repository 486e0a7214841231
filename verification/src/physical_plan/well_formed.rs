//! Every batch that a plan gives is well formed, and has the schema that
//! the logical plan declares.

use crate::datasource::csv_data_source::{
    batch_of, batches_from, columns_of, csv_format, csv_records, kept,
};
use crate::datasource::in_memory_data_source::{projected, projected_all};
use crate::datasource::Source;
use crate::datatypes::arrow_vector_builder::built;
use crate::datatypes::column_vector::ColumnSpec;
use crate::datatypes::record_batch::{batch_views, BatchSpec};
use crate::datatypes::scalar::Datum;
use crate::datatypes::schema::{all_known, lemma_first_index, FieldSpec};
use crate::error::{QueryError, QueryFault};
use crate::logical_plan::expressions::{fields_of, Expr};
use crate::logical_plan::scan::scan_fields;
use crate::logical_plan::LogicalPlan;
use crate::physical_plan::expressions::aggregate_expression::AggregateExpression;
use crate::physical_plan::expressions::properties::theorem_evaluated_length;
use crate::physical_plan::expressions::Expression;
use crate::physical_plan::hash_aggregate_exec::{aggregated, output_columns, GroupSpec};
use crate::physical_plan::projection_exec::{evaluated_all, projected_batch, projected_batches};
use crate::physical_plan::selection_exec::{
    filtered_columns, picked, selected_batch, selected_batches,
};
use crate::physical_plan::PhysicalPlan;
use crate::query_planner::typing::theorem_field_type_is_column_type;
use crate::query_planner::{all_fields, lowered_expr, lowered_exprs, lowers};
use crate::text::views;
use vstd::prelude::*;

verus! {

/// Whether every batch of a run is well formed and has the schema
/// `schema`.
pub open spec fn all_of(batches: Seq<BatchSpec>, schema: Seq<FieldSpec>) -> bool {
    forall|i: int|
        0 <= i < batches.len() ==> (#[trigger] batches[i]).wf() && batches[i].schema == schema
}

/// The columns that are built from the rows of a csv source are one for
/// each field that is read, of its type, with one slot for each row.
pub proof fn lemma_columns_of(
    rows: Seq<Seq<Seq<char>>>,
    file: Seq<FieldSpec>,
    read: Seq<FieldSpec>,
    n: nat,
)
    requires
        n <= read.len(),
    ensures
        columns_of(rows, file, read, n) matches Ok(columns) ==> columns.len() == n && forall|j: int|
            0 <= j < n ==> (#[trigger] columns[j]).data_type == read[j].data_type
                && columns[j].items.len() == rows.len(),
    decreases n,
{
    if n > 0 {
        lemma_columns_of(rows, file, read, (n - 1) as nat);
    }
}

/// The batch of some rows of a csv source is well formed and has the schema
/// that is read.
pub proof fn theorem_csv_batch_is_well_formed(
    rows: Seq<Seq<Seq<char>>>,
    file: Seq<FieldSpec>,
    read: Seq<FieldSpec>,
)
    requires
        read.len() <= usize::MAX,
    ensures
        batch_of(rows, file, read) matches Ok(b) ==> b.wf() && b.schema == read,
{
    lemma_columns_of(rows, file, read, read.len());
}

/// Every batch of a csv scan is well formed and has the schema that is
/// read.
pub proof fn lemma_csv_batches(
    rows: Seq<Seq<Seq<char>>>,
    size: nat,
    file: Seq<FieldSpec>,
    read: Seq<FieldSpec>,
    start: nat,
)
    requires
        read.len() <= usize::MAX,
    ensures
        batches_from(rows, size, file, read, start) matches Ok(batches) ==> all_of(batches, read),
    decreases rows.len() - start,
{
    if size > 0 && start < rows.len() {
        let end: nat = if start + size < rows.len() {
            start + size
        } else {
            rows.len()
        };
        theorem_csv_batch_is_well_formed(rows.subrange(start as int, end as int), file, read);
        lemma_csv_batches(rows, size, file, read, end);
    }
}

/// The batch that an in-memory source makes of a batch with the columns of
/// its schema is well formed, and has the schema of the scan.
pub proof fn theorem_in_memory_batch_is_well_formed(
    b: BatchSpec,
    fields: Seq<FieldSpec>,
    names: Seq<Seq<char>>,
)
    requires
        b.conforms(fields),
        b.rectangular(),
        all_known(fields, names),
        names.len() <= usize::MAX,
    ensures
        projected(b, fields, names) matches Ok(p) ==> p.wf() && p.schema == scan_fields(
            fields,
            names,
        ),
{
    if names.len() > 0 {
        let p = projected(b, fields, names)->Ok_0;
        assert forall|k: int| 0 <= k < names.len() implies (#[trigger] p.columns[k]).data_type
            == p.schema[k].data_type && p.columns[k].items.len() == b.rows() by {
            lemma_first_index(fields, names[k]);
        }
    }
}

/// Every batch that an in-memory source makes of batches with the columns
/// of its schema is well formed, and has the schema of the scan.
pub proof fn lemma_in_memory_batches(
    data: Seq<BatchSpec>,
    fields: Seq<FieldSpec>,
    names: Seq<Seq<char>>,
)
    requires
        forall|i: int|
            0 <= i < data.len() ==> (#[trigger] data[i]).conforms(fields) && data[i].rectangular(),
        all_known(fields, names),
        names.len() <= usize::MAX,
    ensures
        projected_all(data, fields, names) matches Ok(batches) ==> all_of(
            batches,
            scan_fields(fields, names),
        ),
    decreases data.len(),
{
    if data.len() > 0 {
        let before = data.drop_last();
        lemma_in_memory_batches(before, fields, names);
        theorem_in_memory_batch_is_well_formed(data.last(), fields, names);
    }
}

/// The values that a selection picks are as many for every column.
pub proof fn lemma_picked_len(
    a: Seq<Option<Datum>>,
    b: Seq<Option<Datum>>,
    selection: Seq<Option<Datum>>,
    n: nat,
)
    ensures
        picked(a, selection, n).len() == picked(b, selection, n).len(),
    decreases n,
{
    if n > 0 {
        lemma_picked_len(a, b, selection, (n - 1) as nat);
    }
}

/// The columns that a selection makes are one for each column of the
/// batch, of its type, and all of one length.
pub proof fn lemma_filtered_columns(columns: Seq<ColumnSpec>, selection: ColumnSpec, n: nat)
    requires
        n <= columns.len(),
    ensures
        filtered_columns(columns, selection, n) matches Ok(kept) ==> kept.len() == n
            && forall|j: int|
            0 <= j < n ==> (#[trigger] kept[j]).data_type == columns[j].data_type
                && kept[j].items.len() == picked(
                Seq::empty(),
                selection.items,
                selection.items.len(),
            ).len(),
    decreases n,
{
    if n > 0 {
        lemma_filtered_columns(columns, selection, (n - 1) as nat);
        lemma_picked_len(
            columns[n - 1].items,
            Seq::empty(),
            selection.items,
            selection.items.len(),
        );
    }
}

/// The batch that a selection makes of a batch with the columns of its
/// schema is well formed and has the same schema.
pub proof fn theorem_selected_batch_is_well_formed(expr: Expression, b: BatchSpec)
    requires
        b.conforms(b.schema),
    ensures
        selected_batch(expr, b) matches Ok(kept) ==> kept.wf() && kept.schema == b.schema,
{
    if expr.evaluated(b) is Ok {
        lemma_filtered_columns(b.columns, expr.evaluated(b)->Ok_0, b.columns.len());
    }
}

/// Every batch that a selection makes of well-formed batches is well
/// formed and has their schema.
pub proof fn lemma_selected_batches(expr: Expression, batches: Seq<BatchSpec>, schema: Seq<FieldSpec>)
    requires
        all_of(batches, schema),
    ensures
        selected_batches(expr, batches) matches Ok(kept) ==> all_of(kept, schema),
    decreases batches.len(),
{
    if batches.len() > 0 {
        let before = batches.drop_last();
        lemma_selected_batches(expr, before, schema);
        theorem_selected_batch_is_well_formed(expr, batches.last());
    }
}

/// The expressions that a run lowers to are those that its expressions
/// lower to, one by one.
pub proof fn lemma_lowered_exprs(exprs: Seq<Expr>, schema: Seq<FieldSpec>, n: nat)
    requires
        n <= exprs.len(),
    ensures
        lowered_exprs(exprs, schema, n) matches Ok(lowered) ==> lowered.len() == n && forall|i: int|
            0 <= i < n ==> lowered_expr(exprs[i], schema) == Ok::<Expression, QueryFault>(
                #[trigger] lowered[i],
            ),
    decreases n,
{
    if n > 0 {
        lemma_lowered_exprs(exprs, schema, (n - 1) as nat);
    }
}

/// The fields that a run gives are those that its expressions give, one by
/// one; and they are the schema of a projection of the run.
pub proof fn lemma_all_fields(exprs: Seq<Expr>, schema: Seq<FieldSpec>, n: nat)
    requires
        n <= exprs.len(),
    ensures
        all_fields(exprs, schema, n) matches Ok(fields) ==> fields.len() == n && fields
            == fields_of(exprs.subrange(0, n as int), schema) && forall|i: int|
            0 <= i < n ==> exprs[i].field(schema) == Ok::<FieldSpec, QueryFault>(
                #[trigger] fields[i],
            ),
    decreases n,
{
    if n > 0 {
        lemma_all_fields(exprs, schema, (n - 1) as nat);
        let part = exprs.subrange(0, n as int);
        assert(part.drop_last() =~= exprs.subrange(0, n - 1));
    }
}

/// The columns that a run of expressions evaluates to are those that the
/// expressions evaluate to, one by one.
pub proof fn lemma_evaluated_all(exprs: Seq<Expression>, b: BatchSpec, n: nat)
    requires
        n <= exprs.len(),
    ensures
        evaluated_all(exprs, b, n) matches Ok(columns) ==> columns.len() == n && forall|i: int|
            0 <= i < n ==> exprs[i].evaluated(b) == Ok::<ColumnSpec, QueryError>(
                #[trigger] columns[i],
            ),
    decreases n,
{
    if n > 0 {
        lemma_evaluated_all(exprs, b, (n - 1) as nat);
    }
}

/// The batch that a lowered projection makes of a well-formed batch of its
/// input is well formed and has the schema of the projection.
pub proof fn theorem_projected_batch_is_well_formed(
    exprs: Seq<Expr>,
    input: Seq<FieldSpec>,
    lowered: Seq<Expression>,
    schema: Seq<FieldSpec>,
    b: BatchSpec,
)
    requires
        exprs.len() <= usize::MAX,
        b.conforms(input),
        b.rectangular(),
        lowered_exprs(exprs, input, exprs.len()) == Ok::<Seq<Expression>, QueryFault>(lowered),
        all_fields(exprs, input, exprs.len()) == Ok::<Seq<FieldSpec>, QueryFault>(schema),
    ensures
        projected_batch(lowered, schema, b) matches Ok(p) ==> p.wf() && p.schema == schema,
{
    lemma_lowered_exprs(exprs, input, exprs.len());
    lemma_all_fields(exprs, input, exprs.len());
    lemma_evaluated_all(lowered, b, lowered.len());
    if projected_batch(lowered, schema, b) is Ok {
        let p = projected_batch(lowered, schema, b)->Ok_0;
        assert forall|i: int| 0 <= i < p.columns.len() implies (#[trigger] p.columns[i]).data_type
            == schema[i].data_type && p.columns[i].items.len() == b.rows() by {
            theorem_field_type_is_column_type(exprs[i], input, b);
            theorem_evaluated_length(lowered[i], b);
        }
    }
}

/// Every batch that a lowered projection makes of well-formed batches of
/// its input is well formed and has the schema of the projection.
pub proof fn lemma_projected_batches(
    exprs: Seq<Expr>,
    input: Seq<FieldSpec>,
    lowered: Seq<Expression>,
    schema: Seq<FieldSpec>,
    batches: Seq<BatchSpec>,
)
    requires
        exprs.len() <= usize::MAX,
        all_of(batches, input),
        lowered_exprs(exprs, input, exprs.len()) == Ok::<Seq<Expression>, QueryFault>(lowered),
        all_fields(exprs, input, exprs.len()) == Ok::<Seq<FieldSpec>, QueryFault>(schema),
    ensures
        projected_batches(lowered, schema, batches) matches Ok(made) ==> all_of(made, schema),
    decreases batches.len(),
{
    if batches.len() > 0 {
        let before = batches.drop_last();
        lemma_projected_batches(exprs, input, lowered, schema, before);
        theorem_projected_batch_is_well_formed(exprs, input, lowered, schema, batches.last());
    }
}

/// The columns of the output of an aggregation are one for each field of
/// its schema, of its type, with one slot for each group.
pub proof fn lemma_output_columns(
    groups: Seq<GroupSpec>,
    schema: Seq<FieldSpec>,
    keys: int,
    n: nat,
)
    requires
        n <= schema.len(),
    ensures
        output_columns(groups, schema, keys, n) matches Ok(columns) ==> columns.len() == n
            && forall|c: int|
            0 <= c < n ==> (#[trigger] columns[c]).data_type == schema[c].data_type
                && columns[c].items.len() == groups.len(),
    decreases n,
{
    if n > 0 {
        lemma_output_columns(groups, schema, keys, (n - 1) as nat);
    }
}

/// The batch of an aggregation is well formed and has the schema of the
/// operator.
pub proof fn theorem_aggregated_batch_is_well_formed(
    group_exprs: Seq<Expression>,
    aggregates: Seq<AggregateExpression>,
    schema: Seq<FieldSpec>,
    batches: Seq<BatchSpec>,
)
    requires
        schema.len() <= usize::MAX,
    ensures
        aggregated(group_exprs, aggregates, schema, batches) matches Ok(made) ==> made.len() == 1
            && all_of(made, schema),
{
    if aggregated(group_exprs, aggregates, schema, batches) is Ok {
        let groups = crate::physical_plan::hash_aggregate_exec::batches_added(
            Seq::empty(),
            group_exprs,
            aggregates,
            crate::physical_plan::hash_aggregate_exec::initial_states(
                aggregates,
                schema,
                group_exprs.len() as int,
            ),
            batches,
        )->Ok_0;
        lemma_output_columns(groups, schema, group_exprs.len() as int, schema.len());
    }
}

impl Source {
    /// Whether the batches that the source holds have the columns of its
    /// schema, all of one length. A csv source holds none.
    pub open spec fn holds_well_formed(&self) -> bool {
        match self {
            Source::CSV(_) => true,
            Source::InMemory(s) => forall|i: int|
                0 <= i < s.data@.len() ==> (#[trigger] batch_views(s.data@)[i]).conforms(s.schema@)
                    && batch_views(s.data@)[i].rectangular(),
        }
    }
}

/// Whether the lists of a plan are as long as a vector can be: the
/// projection of its scan, and the expressions of its projections.
pub open spec fn sized(plan: LogicalPlan) -> bool
    decreases plan,
{
    match plan {
        LogicalPlan::Scan(s) => s.projection@.len() <= usize::MAX && s.schema@.len()
            <= usize::MAX,
        LogicalPlan::Selection(s) => sized(*s.input),
        LogicalPlan::Projection(p) => p.expr@.len() <= usize::MAX && sized(*p.input),
        LogicalPlan::Aggregate(a) => a.group_expr@.len() + a.aggregate_expr@.len() <= usize::MAX
            && sized(*a.input),
        LogicalPlan::Limit(l) => sized(*l.input),
    }
}

/// The fields of a run of expressions are no more than the expressions.
pub proof fn lemma_fields_of_len(exprs: Seq<Expr>, schema: Seq<FieldSpec>)
    ensures
        fields_of(exprs, schema).len() <= exprs.len(),
    decreases exprs.len(),
{
    if exprs.len() > 0 {
        lemma_fields_of_len(exprs.drop_last(), schema);
    }
}

/// Execution is well typed: every batch that the physical plan of a
/// logical plan gives is well formed, and has the schema of the logical
/// plan. This holds for a plan whose scan holds the schema that its source
/// and its projection give, over a source whose batches are well formed.
pub proof fn theorem_execution_is_well_formed(plan: LogicalPlan, physical: PhysicalPlan)
    requires
        lowers(plan, physical),
        plan.leaf().wf(),
        plan.leaf().datasource.holds_well_formed(),
        sized(plan),
    ensures
        physical.executed() matches Ok(batches) ==> all_of(batches, plan.fields()),
    decreases plan,
{
    match plan {
        LogicalPlan::Scan(s) => {
            let names = views(s.projection@);
            let fields = s.datasource.fields();
            match s.datasource {
                Source::CSV(c) => {
                    let records = csv_records(c.content@, csv_format(c.has_headers));
                    lemma_csv_batches(kept(records), c.batch_size as nat, fields, s.schema@, 0);
                },
                Source::InMemory(m) => {
                    lemma_in_memory_batches(batch_views(m.data@), fields, names);
                },
            }
        },
        LogicalPlan::Selection(s) => {
            let t = physical->Selection_0;
            theorem_execution_is_well_formed(*s.input, *t.input);
            if t.input.executed() is Ok {
                lemma_selected_batches(t.expr, t.input.executed()->Ok_0, s.input.fields());
            }
        },
        LogicalPlan::Projection(p) => {
            let t = physical->Projection_0;
            theorem_execution_is_well_formed(*p.input, *t.input);
            lemma_all_fields(p.expr@, p.input.fields(), p.expr@.len());
            assert(p.expr@.subrange(0, p.expr@.len() as int) =~= p.expr@);
            if t.input.executed() is Ok {
                lemma_projected_batches(
                    p.expr@,
                    p.input.fields(),
                    t.expr@,
                    t.schema@,
                    t.input.executed()->Ok_0,
                );
            }
        },
        LogicalPlan::Aggregate(a) => {
            let t = physical->HashAggregate_0;
            lemma_fields_of_len(a.group_expr@, a.input.fields());
            lemma_fields_of_len(a.aggregate_expr@, a.input.fields());
            if t.input.executed() is Ok {
                theorem_aggregated_batch_is_well_formed(
                    t.group_expr@,
                    t.aggregate_expr@,
                    t.schema@,
                    t.input.executed()->Ok_0,
                );
            }
        },
        LogicalPlan::Limit(_) => {},
    }
}

} // verus!
