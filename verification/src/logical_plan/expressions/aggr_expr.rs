//! Aggregates.

use crate::logical_plan::expressions::Expr;
use vstd::prelude::*;

verus! {

/// The kinds of aggregates.
#[derive(Clone, Copy, Debug, PartialEq, Eq, Structural)]
pub enum AggregateKind {
    Max,
    Min,
    Sum,
    Avg,
    Count,
    CountDistinct,
}

impl AggregateKind {
    /// The name of the aggregate, which names the field of its result.
    pub open spec fn spec_name(self) -> Seq<char> {
        match self {
            AggregateKind::Max => "MAX"@,
            AggregateKind::Min => "MIN"@,
            AggregateKind::Sum => "SUM"@,
            AggregateKind::Avg => "AVG"@,
            AggregateKind::Count => "COUNT"@,
            AggregateKind::CountDistinct => "COUNT_DISTINCT"@,
        }
    }

    /// What a printed aggregate shows before its operand.
    pub open spec fn spec_opening(self) -> Seq<char> {
        match self {
            AggregateKind::Max => "MAX("@,
            AggregateKind::Min => "MIN("@,
            AggregateKind::Sum => "SUM("@,
            AggregateKind::Avg => "AVG("@,
            AggregateKind::Count => "COUNT("@,
            AggregateKind::CountDistinct => "COUNT(DISTINCT "@,
        }
    }

    /// Whether the aggregate is a count, whose result is a 32-bit integer
    /// whatever it counts.
    pub open spec fn counts(self) -> bool {
        self == AggregateKind::Count || self == AggregateKind::CountDistinct
    }

    pub fn name(&self) -> (r: &'static str)
        ensures
            r@ == self.spec_name(),
    {
        match self {
            AggregateKind::Max => "MAX",
            AggregateKind::Min => "MIN",
            AggregateKind::Sum => "SUM",
            AggregateKind::Avg => "AVG",
            AggregateKind::Count => "COUNT",
            AggregateKind::CountDistinct => "COUNT_DISTINCT",
        }
    }

    pub fn opening(&self) -> (r: &'static str)
        ensures
            r@ == self.spec_opening(),
    {
        match self {
            AggregateKind::Max => "MAX(",
            AggregateKind::Min => "MIN(",
            AggregateKind::Sum => "SUM(",
            AggregateKind::Avg => "AVG(",
            AggregateKind::Count => "COUNT(",
            AggregateKind::CountDistinct => "COUNT(DISTINCT ",
        }
    }

    pub fn is_count(&self) -> (r: bool)
        ensures
            r == self.counts(),
    {
        match self {
            AggregateKind::Count | AggregateKind::CountDistinct => true,
            _ => false,
        }
    }
}

/// An aggregate over the values of an expression.
pub struct AggrExpr {
    pub kind: AggregateKind,
    pub expr: Box<Expr>,
}

/// The aggregate of kind `kind` over `expr`.
pub fn aggregate(kind: AggregateKind, expr: Expr) -> (e: Expr)
    ensures
        e == Expr::Aggr(AggrExpr { kind, expr: Box::new(expr) }),
{
    Expr::Aggr(AggrExpr { kind, expr: Box::new(expr) })
}

/// `MAX(expr)`.
pub fn max(expr: Expr) -> (e: Expr)
    ensures
        e == Expr::Aggr(AggrExpr { kind: AggregateKind::Max, expr: Box::new(expr) }),
{
    aggregate(AggregateKind::Max, expr)
}

/// `MIN(expr)`.
pub fn min(expr: Expr) -> (e: Expr)
    ensures
        e == Expr::Aggr(AggrExpr { kind: AggregateKind::Min, expr: Box::new(expr) }),
{
    aggregate(AggregateKind::Min, expr)
}

/// `SUM(expr)`.
pub fn sum(expr: Expr) -> (e: Expr)
    ensures
        e == Expr::Aggr(AggrExpr { kind: AggregateKind::Sum, expr: Box::new(expr) }),
{
    aggregate(AggregateKind::Sum, expr)
}

/// `AVG(expr)`.
pub fn avg(expr: Expr) -> (e: Expr)
    ensures
        e == Expr::Aggr(AggrExpr { kind: AggregateKind::Avg, expr: Box::new(expr) }),
{
    aggregate(AggregateKind::Avg, expr)
}

/// `COUNT(expr)`.
pub fn count(expr: Expr) -> (e: Expr)
    ensures
        e == Expr::Aggr(AggrExpr { kind: AggregateKind::Count, expr: Box::new(expr) }),
{
    aggregate(AggregateKind::Count, expr)
}

/// `COUNT(DISTINCT expr)`.
pub fn count_distinct(expr: Expr) -> (e: Expr)
    ensures
        e == Expr::Aggr(AggrExpr { kind: AggregateKind::CountDistinct, expr: Box::new(expr) }),
{
    aggregate(AggregateKind::CountDistinct, expr)
}

} // verus!
