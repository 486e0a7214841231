//! Aggregations over groups of rows.

use crate::logical_plan::expressions::{list_to_string, texts, Expr};
use crate::logical_plan::LogicalPlan;
use crate::text::joined;
use vstd::prelude::*;
use vstd::string::*;

verus! {

/// For each group of rows of the input, the values of the group
/// expressions and the aggregates.
pub struct Aggregate {
    pub input: Box<LogicalPlan>,
    pub group_expr: Vec<Expr>,
    pub aggregate_expr: Vec<Expr>,
}

/// The aggregates among a run of expressions, in order.
pub open spec fn aggregates_of(exprs: Seq<Expr>) -> Seq<Expr> {
    exprs.filter(|e: Expr| e is Aggr)
}

impl Aggregate {
    /// An aggregation. Of `aggregate_expr` only the aggregates are kept.
    pub fn new(input: LogicalPlan, group_expr: Vec<Expr>, aggregate_expr: Vec<Expr>) -> (r:
        Aggregate)
        ensures
            *r.input == input,
            r.group_expr == group_expr,
            r.aggregate_expr@ == aggregates_of(aggregate_expr@),
    {
        let ghost given = aggregate_expr@;
        let mut kept: Vec<Expr> = Vec::new();
        for e in it: aggregate_expr
            invariant
                it.seq() == given,
                kept@ == aggregates_of(given.subrange(0, it.index() as int)),
        {
            proof {
                reveal(Seq::filter);
                let next = given.subrange(0, it.index() + 1);
                assert(next.drop_last() =~= given.subrange(0, it.index() as int));
            }
            match e {
                Expr::Aggr(a) => {
                    kept.push(Expr::Aggr(a));
                },
                _ => {},
            }
        }
        assert(given.subrange(0, given.len() as int) =~= given);
        Aggregate { input: Box::new(input), group_expr, aggregate_expr: kept }
    }

    /// The text of the node.
    pub open spec fn text(&self) -> Seq<char> {
        "Aggregate: group_expr="@ + joined(texts(self.group_expr@), ", "@)
            + ", aggregate_expr="@ + joined(texts(self.aggregate_expr@), ", "@)
    }

    /// The text of the node.
    pub fn to_string(&self) -> (r: String)
        ensures
            r@ == self.text(),
    {
        let mut out = "Aggregate: group_expr=".to_owned();
        out.append(list_to_string(&self.group_expr).as_str());
        out.append(", aggregate_expr=");
        out.append(list_to_string(&self.aggregate_expr).as_str());
        out
    }
}

} // verus!
