//! Physical plans: executable operators and the expressions they evaluate.

pub mod expressions;
pub mod grouping;
pub mod hash_aggregate_exec;
pub mod projection_exec;
pub mod scan_exec;
pub mod selection_exec;
pub mod well_formed;

use crate::datasource::scan_gives;
use crate::datatypes::record_batch::{BatchSpec, RecordBatch};
use crate::error::{QueryError, QueryFault};
use crate::physical_plan::hash_aggregate_exec::HashAggregateExec;
use crate::physical_plan::projection_exec::ProjectionExec;
use crate::physical_plan::scan_exec::ScanExec;
use crate::physical_plan::selection_exec::SelectionExec;
use crate::datatypes::schema::{
    all_known, is_first_unknown, lemma_one_first_unknown, schema_text, FieldSpec, Schema,
};
use crate::logical_plan::scan::scan_fields;
use crate::logical_plan::scan::quoted;
use crate::physical_plan::expressions::aggregate_expression::AggregateExpression;
use crate::physical_plan::expressions::{expression_texts, expressions_to_string};
use crate::text::{debug_text, join, joined, quote, repeated, views};
use vstd::prelude::*;
use vstd::string::*;

verus! {

/// A physical plan: an operator over at most one input.
pub enum PhysicalPlan {
    Scan(ScanExec),
    Selection(SelectionExec),
    Projection(ProjectionExec),
    HashAggregate(HashAggregateExec),
}

impl PhysicalPlan {
    /// What the plan gives when it runs: its batches, in order, or the
    /// first failure.
    pub open spec fn executed(&self) -> Result<Seq<BatchSpec>, QueryFault>
        decreases self,
    {
        match self {
            PhysicalPlan::Scan(p) => p.executed(),
            PhysicalPlan::Selection(p) => p.executed(),
            PhysicalPlan::Projection(p) => p.executed(),
            PhysicalPlan::HashAggregate(p) => p.executed(),
        }
    }

    /// The schema that the plan declares for its batches: a scan and a
    /// selection have that of what they read; a projection and an
    /// aggregation hold theirs. A failure for a scan of a name that its
    /// source does not have.
    pub open spec fn declared(&self) -> Result<Seq<FieldSpec>, Seq<char>>
        decreases self,
    {
        match self {
            PhysicalPlan::Scan(p) => if all_known(p.ds.fields(), views(p.projection@)) {
                Ok(scan_fields(p.ds.fields(), views(p.projection@)))
            } else {
                Err(
                    choose|n: Seq<char>|
                        is_first_unknown(p.ds.fields(), views(p.projection@), n),
                )
            },
            PhysicalPlan::Selection(p) => p.input.declared(),
            PhysicalPlan::Projection(p) => Ok(p.schema@),
            PhysicalPlan::HashAggregate(p) => Ok(p.schema@),
        }
    }

    /// The schema that the plan declares for its batches.
    pub fn schema(&self) -> (r: Result<Schema, QueryError>)
        ensures
            schema_gives(r, self.declared()),
        decreases self,
    {
        match self {
            PhysicalPlan::Scan(p) => {
                let r = p.schema();
                proof {
                    if r is Err {
                        lemma_one_first_unknown(
                            p.ds.fields(),
                            views(p.projection@),
                            r->Err_0->UnknownField_0@,
                        );
                    }
                }
                r
            },
            PhysicalPlan::Selection(p) => p.schema(),
            PhysicalPlan::Projection(p) => Ok(p.schema()),
            PhysicalPlan::HashAggregate(p) => Ok(p.schema()),
        }
    }

    /// The input of the operator; a scan has none.
    pub open spec fn input(&self) -> Option<PhysicalPlan> {
        match self {
            PhysicalPlan::Scan(_) => None,
            PhysicalPlan::Selection(p) => Some(*p.input),
            PhysicalPlan::Projection(p) => Some(*p.input),
            PhysicalPlan::HashAggregate(p) => Some(*p.input),
        }
    }

    /// The text of the operator.
    pub open spec fn text(&self) -> Seq<char> {
        match self {
            PhysicalPlan::Scan(p) => "ScanExec: schema="@ + schema_text(p.ds.fields())
                + ", projection=["@ + joined(quoted(views(p.projection@)), ", "@) + "]"@,
            PhysicalPlan::Selection(p) => "SelectionExec: "@ + p.expr.text(),
            PhysicalPlan::Projection(p) => "ProjectionExec: "@ + joined(
                expression_texts(p.expr@),
                ", "@,
            ),
            PhysicalPlan::HashAggregate(p) => "HashAggregateExec: groupExpr="@ + joined(
                expression_texts(p.group_expr@),
                ", "@,
            ) + ", aggrExpr="@ + joined(aggregate_texts(p.aggregate_expr@), ", "@),
        }
    }

    /// The printed plan, under a prefix: the prefix, the text of the
    /// operator and a line feed; then the input, under the prefix and one
    /// more tab.
    pub open spec fn printed(&self, prefix: Seq<char>) -> Seq<char>
        decreases self,
    {
        let line = prefix + self.text() + "\n"@;
        match self {
            PhysicalPlan::Scan(_) => line,
            PhysicalPlan::Selection(p) => line + p.input.printed(prefix + "\t"@),
            PhysicalPlan::Projection(p) => line + p.input.printed(prefix + "\t"@),
            PhysicalPlan::HashAggregate(p) => line + p.input.printed(prefix + "\t"@),
        }
    }

    /// The printed plan at a depth of `indent` tabs.
    pub open spec fn formatted(&self, indent: nat) -> Seq<char> {
        self.printed(repeated('\t', indent))
    }

    /// The inputs of the operator: one, or none for a scan.
    pub fn children(&self) -> (r: Vec<&PhysicalPlan>)
        ensures
            match self.input() {
                Some(p) => r@.len() == 1 && *r@[0] == p,
                None => r@.len() == 0,
            },
    {
        let mut out: Vec<&PhysicalPlan> = Vec::new();
        match self {
            PhysicalPlan::Scan(_) => {},
            PhysicalPlan::Selection(p) => {
                out.push(&*p.input);
            },
            PhysicalPlan::Projection(p) => {
                out.push(&*p.input);
            },
            PhysicalPlan::HashAggregate(p) => {
                out.push(&*p.input);
            },
        }
        out
    }

    /// The text of the operator.
    pub fn to_string(&self) -> (r: String)
        ensures
            r@ == self.text(),
    {
        match self {
            PhysicalPlan::Scan(p) => {
                let mut out = "ScanExec: schema=".to_owned();
                out.append(p.ds.schema().to_string().as_str());
                out.append(", projection=[");
                let mut names: Vec<String> = Vec::new();
                let mut i: usize = 0;
                while i < p.projection.len()
                    invariant
                        i <= p.projection.len(),
                        names@.len() == i,
                        forall|k: int|
                            0 <= k < i ==> (#[trigger] names@[k])@ == debug_text(
                                p.projection@[k]@,
                            ),
                    decreases p.projection.len() - i,
                {
                    names.push(quote(p.projection[i].as_str()));
                    i = i + 1;
                }
                assert(views(names@) =~= quoted(views(p.projection@)));
                out.append(join(&names, ", ").as_str());
                out.append("]");
                out
            },
            PhysicalPlan::Selection(p) => {
                let mut out = "SelectionExec: ".to_owned();
                out.append(p.expr.to_string().as_str());
                out
            },
            PhysicalPlan::Projection(p) => {
                let mut out = "ProjectionExec: ".to_owned();
                out.append(expressions_to_string(&p.expr).as_str());
                out
            },
            PhysicalPlan::HashAggregate(p) => {
                let mut out = "HashAggregateExec: groupExpr=".to_owned();
                out.append(expressions_to_string(&p.group_expr).as_str());
                out.append(", aggrExpr=");
                let mut parts: Vec<String> = Vec::new();
                let mut i: usize = 0;
                while i < p.aggregate_expr.len()
                    invariant
                        i <= p.aggregate_expr.len(),
                        parts@.len() == i,
                        forall|k: int|
                            0 <= k < i ==> (#[trigger] parts@[k])@ == p.aggregate_expr@[k].text(),
                    decreases p.aggregate_expr.len() - i,
                {
                    parts.push(p.aggregate_expr[i].to_string());
                    i = i + 1;
                }
                assert(views(parts@) =~= aggregate_texts(p.aggregate_expr@));
                out.append(join(&parts, ", ").as_str());
                out
            },
        }
    }

    /// The plan printed under a prefix.
    fn print(&self, prefix: &str) -> (r: String)
        ensures
            r@ == self.printed(prefix@),
        decreases self,
    {
        let mut out = prefix.to_owned();
        out.append(self.to_string().as_str());
        out.append("\n");
        let mut deeper = prefix.to_owned();
        deeper.append("\t");
        match self {
            PhysicalPlan::Scan(_) => {},
            PhysicalPlan::Selection(p) => {
                out.append(p.input.print(deeper.as_str()).as_str());
            },
            PhysicalPlan::Projection(p) => {
                out.append(p.input.print(deeper.as_str()).as_str());
            },
            PhysicalPlan::HashAggregate(p) => {
                out.append(p.input.print(deeper.as_str()).as_str());
            },
        }
        out
    }

    /// The printed plan: one line for each operator, the root first, every
    /// input one tab deeper than its parent.
    pub fn pretty(&self) -> (r: String)
        ensures
            r@ == self.formatted(0),
    {
        format(self, 0)
    }

    /// Runs the plan.
    pub fn execute(&self) -> (r: Result<Vec<RecordBatch>, QueryError>)
        ensures
            scan_gives(r, self.executed()),
        decreases self,
    {
        match self {
            PhysicalPlan::Scan(p) => p.execute(),
            PhysicalPlan::Selection(p) => p.execute(),
            PhysicalPlan::Projection(p) => p.execute(),
            PhysicalPlan::HashAggregate(p) => p.execute(),
        }
    }
}

/// Whether a result holds the schema that is expected, or the failure for
/// the field that is expected to be unknown.
pub open spec fn schema_gives(r: Result<Schema, QueryError>, expected: Result<
    Seq<FieldSpec>,
    Seq<char>,
>) -> bool {
    match expected {
        Ok(fields) => r is Ok && r->Ok_0@ == fields,
        Err(name) => r is Err && r->Err_0@ == QueryFault::UnknownField(name),
    }
}

/// The texts of a run of aggregates.
pub open spec fn aggregate_texts(aggregates: Seq<AggregateExpression>) -> Seq<Seq<char>> {
    aggregates.map_values(|a: AggregateExpression| a.text())
}

/// Formats a physical plan in human-readable form, at a depth of `indent`
/// tabs.
pub fn format(plan: &PhysicalPlan, indent: usize) -> (r: String)
    ensures
        r@ == plan.formatted(indent as nat),
{
    let mut prefix = String::new();
    let mut i: usize = 0;
    proof {
        reveal_strlit("\t");
    }
    while i < indent
        invariant
            i <= indent,
            prefix@ == repeated('\t', i as nat),
            "\t"@ == seq!['\t'],
        decreases indent - i,
    {
        prefix.append("\t");
        i = i + 1;
    }
    plan.print(prefix.as_str())
}

} // verus!
