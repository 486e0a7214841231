//! Logical plans: what a query computes, node by node.

pub mod aggregate;
pub mod data_frame;
pub mod expressions;
pub mod limit;
pub mod projection;
pub mod projection_properties;
pub mod scan;
pub mod selection;

use crate::datatypes::schema::{Field, FieldSpec, Schema};
use crate::logical_plan::aggregate::Aggregate;
use crate::logical_plan::expressions::{fields_of, push_fields};
use crate::logical_plan::limit::Limit;
use crate::logical_plan::projection::Projection;
use crate::logical_plan::scan::Scan;
use crate::logical_plan::selection::Selection;
use crate::text::repeated;
use vstd::prelude::*;
use vstd::string::*;

verus! {

/// A logical plan: a tree of nodes, each over at most one input.
pub enum LogicalPlan {
    Scan(Scan),
    Selection(Selection),
    Projection(Projection),
    Aggregate(Aggregate),
    Limit(Limit),
}

impl LogicalPlan {
    /// The schema of the plan. A scan holds its schema; a selection and a
    /// limit have that of their input; a projection and an aggregation have
    /// the fields of their expressions, those of the group expressions
    /// first.
    pub open spec fn fields(&self) -> Seq<FieldSpec>
        decreases self,
    {
        match self {
            LogicalPlan::Scan(s) => s.schema@,
            LogicalPlan::Selection(s) => s.input.fields(),
            LogicalPlan::Projection(p) => fields_of(p.expr@, p.input.fields()),
            LogicalPlan::Aggregate(a) => fields_of(a.group_expr@, a.input.fields()) + fields_of(
                a.aggregate_expr@,
                a.input.fields(),
            ),
            LogicalPlan::Limit(l) => l.input.fields(),
        }
    }

    /// The input of the node; a scan has none.
    pub open spec fn input(&self) -> Option<LogicalPlan> {
        match self {
            LogicalPlan::Scan(_) => None,
            LogicalPlan::Selection(s) => Some(*s.input),
            LogicalPlan::Projection(p) => Some(*p.input),
            LogicalPlan::Aggregate(a) => Some(*a.input),
            LogicalPlan::Limit(l) => Some(*l.input),
        }
    }

    /// The text of the node.
    pub open spec fn text(&self) -> Seq<char> {
        match self {
            LogicalPlan::Scan(s) => s.text(),
            LogicalPlan::Selection(s) => s.text(),
            LogicalPlan::Projection(p) => p.text(),
            LogicalPlan::Aggregate(a) => a.text(),
            LogicalPlan::Limit(l) => l.text(),
        }
    }

    /// The printed plan, under a prefix: the prefix, the text of the node
    /// and a line feed; then the input, under the prefix and one more tab.
    pub open spec fn printed(&self, prefix: Seq<char>) -> Seq<char>
        decreases self,
    {
        let line = prefix + self.text() + "\n"@;
        match self {
            LogicalPlan::Scan(_) => line,
            LogicalPlan::Selection(s) => line + s.input.printed(prefix + "\t"@),
            LogicalPlan::Projection(p) => line + p.input.printed(prefix + "\t"@),
            LogicalPlan::Aggregate(a) => line + a.input.printed(prefix + "\t"@),
            LogicalPlan::Limit(l) => line + l.input.printed(prefix + "\t"@),
        }
    }

    /// The printed plan at a depth of `indent` tabs.
    pub open spec fn formatted(&self, indent: nat) -> Seq<char> {
        self.printed(repeated('\t', indent))
    }

    /// The schema of the plan.
    pub fn schema(&self) -> (r: Schema)
        ensures
            r@ == self.fields(),
        decreases self,
    {
        match self {
            LogicalPlan::Scan(s) => s.schema(),
            LogicalPlan::Selection(s) => s.input.schema(),
            LogicalPlan::Projection(p) => {
                let input = p.input.schema();
                let mut fields: Vec<Field> = Vec::new();
                push_fields(&mut fields, &p.expr, &input);
                let r = Schema { fields };
                r
            },
            LogicalPlan::Aggregate(a) => {
                let input = a.input.schema();
                let mut fields: Vec<Field> = Vec::new();
                push_fields(&mut fields, &a.group_expr, &input);
                push_fields(&mut fields, &a.aggregate_expr, &input);
                let r = Schema { fields };
                r
            },
            LogicalPlan::Limit(l) => l.input.schema(),
        }
    }

    /// The inputs of the node: one, or none for a scan.
    pub fn children(&self) -> (r: Vec<&LogicalPlan>)
        ensures
            match self.input() {
                Some(p) => r@.len() == 1 && *r@[0] == p,
                None => r@.len() == 0,
            },
    {
        let mut out: Vec<&LogicalPlan> = Vec::new();
        match self {
            LogicalPlan::Scan(_) => {},
            LogicalPlan::Selection(s) => {
                out.push(&*s.input);
            },
            LogicalPlan::Projection(p) => {
                out.push(&*p.input);
            },
            LogicalPlan::Aggregate(a) => {
                out.push(&*a.input);
            },
            LogicalPlan::Limit(l) => {
                out.push(&*l.input);
            },
        }
        out
    }

    /// The text of the node.
    pub fn to_string(&self) -> (r: String)
        ensures
            r@ == self.text(),
    {
        match self {
            LogicalPlan::Scan(s) => s.to_string(),
            LogicalPlan::Selection(s) => s.to_string(),
            LogicalPlan::Projection(p) => p.to_string(),
            LogicalPlan::Aggregate(a) => a.to_string(),
            LogicalPlan::Limit(l) => l.to_string(),
        }
    }

    /// The plan printed under a prefix.
    fn print(&self, prefix: &str) -> (r: String)
        ensures
            r@ == self.printed(prefix@),
        decreases self,
    {
        let mut out = prefix.to_owned();
        out.append(self.to_string().as_str());
        out.append("\n");
        let mut deeper = prefix.to_owned();
        deeper.append("\t");
        match self {
            LogicalPlan::Scan(_) => {},
            LogicalPlan::Selection(s) => {
                out.append(s.input.print(deeper.as_str()).as_str());
            },
            LogicalPlan::Projection(p) => {
                out.append(p.input.print(deeper.as_str()).as_str());
            },
            LogicalPlan::Aggregate(a) => {
                out.append(a.input.print(deeper.as_str()).as_str());
            },
            LogicalPlan::Limit(l) => {
                out.append(l.input.print(deeper.as_str()).as_str());
            },
        }
        out
    }

    /// The printed plan: one line for each node, the root first, every
    /// input one tab deeper than its parent.
    pub fn pretty(&self) -> (r: String)
        ensures
            r@ == self.formatted(0),
    {
        format(self, 0)
    }
}

/// Formats a plan in human-readable form, at a depth of `indent` tabs.
pub fn format(plan: &LogicalPlan, indent: usize) -> (r: String)
    ensures
        r@ == plan.formatted(indent as nat),
{
    let mut prefix = String::new();
    let mut i: usize = 0;
    proof {
        reveal_strlit("\t");
    }
    while i < indent
        invariant
            i <= indent,
            prefix@ == repeated('\t', i as nat),
            "\t"@ == seq!['\t'],
        decreases indent - i,
    {
        prefix.append("\t");
        i = i + 1;
    }
    plan.print(prefix.as_str())
}

} // verus!
