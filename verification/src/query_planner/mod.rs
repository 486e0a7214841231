//! The query planner: lowers a logical plan to a physical plan.

pub mod typing;

use crate::datatypes::arrow_types::ArrowType;
use crate::datatypes::schema::{first_index, has_field, Field, FieldSpec, Schema};
use crate::error::{QueryError, QueryFault};
use crate::logical_plan::aggregate::Aggregate;
use crate::logical_plan::expressions::aggr_expr::AggregateKind;
use crate::logical_plan::expressions::binary_expr::BinaryOperator;
use crate::logical_plan::expressions::literal_expr::LiteralExpr;
use crate::logical_plan::expressions::math_expr::MathOperator;
use crate::logical_plan::expressions::{push_fields, Expr};
use crate::logical_plan::projection::Projection;
use crate::logical_plan::scan::Scan;
use crate::logical_plan::selection::Selection;
use crate::logical_plan::LogicalPlan;
use crate::physical_plan::expressions::aggregate_expression::AggregateExpression;
use crate::physical_plan::expressions::boolean_expression::{
    AndExpression, EqExpression, GtEqExpression, GtExpression, LtEqExpression, LtExpression,
    NeqExpression, OrExpression,
};
use crate::physical_plan::expressions::cast_expression::CastExpression;
use crate::physical_plan::expressions::column_expression::ColumnExpression;
use crate::physical_plan::expressions::count_expression::{
    CountDistinctExpression, CountExpression,
};
use crate::physical_plan::expressions::math_expression::{
    AddExpression, DivideExpression, ModulusExpression, MultiplyExpression, SubtractExpression,
};
use crate::physical_plan::expressions::max_expression::MaxExpression;
use crate::physical_plan::expressions::min_expression::MinExpression;
use crate::physical_plan::expressions::sum_expression::SumExpression;
use crate::physical_plan::expressions::{
    Expression, LiteralLongExpression, LiteralStringExpression,
};
use crate::physical_plan::hash_aggregate_exec::HashAggregateExec;
use crate::physical_plan::projection_exec::ProjectionExec;
use crate::physical_plan::scan_exec::ScanExec;
use crate::physical_plan::selection_exec::SelectionExec;
use crate::physical_plan::PhysicalPlan;
use vstd::prelude::*;

verus! {

/// Lowers logical plans and expressions to physical ones.
pub struct QueryPlanner;

/// The physical expression of a boolean operator over two operands.
pub open spec fn boolean_expression(op: BinaryOperator, l: Expression, r: Expression) -> Expression {
    let l = Box::new(l);
    let r = Box::new(r);
    match op {
        BinaryOperator::And => Expression::And(AndExpression { l, r }),
        BinaryOperator::Or => Expression::Or(OrExpression { l, r }),
        BinaryOperator::Eq => Expression::Eq(EqExpression { l, r }),
        BinaryOperator::Neq => Expression::Neq(NeqExpression { l, r }),
        BinaryOperator::Gt => Expression::Gt(GtExpression { l, r }),
        BinaryOperator::GtEq => Expression::GtEq(GtEqExpression { l, r }),
        BinaryOperator::Lt => Expression::Lt(LtExpression { l, r }),
        BinaryOperator::LtEq => Expression::LtEq(LtEqExpression { l, r }),
    }
}

/// The physical expression of an arithmetic operator over two operands.
pub open spec fn math_expression(op: MathOperator, l: Expression, r: Expression) -> Expression {
    let l = Box::new(l);
    let r = Box::new(r);
    match op {
        MathOperator::Add => Expression::Add(AddExpression { l, r }),
        MathOperator::Subtract => Expression::Subtract(SubtractExpression { l, r }),
        MathOperator::Multiply => Expression::Multiply(MultiplyExpression { l, r }),
        MathOperator::Divide => Expression::Divide(DivideExpression { l, r }),
        MathOperator::Modulus => Expression::Modulus(ModulusExpression { l, r }),
    }
}

/// The physical expression that a logical expression lowers to, against an
/// input of the schema `schema`. A column name becomes the index of the
/// first field of that name; an alias lowers to what it names. Fails for a
/// name that the schema does not have, and for an expression that has no
/// physical form: a negation, and an aggregate outside an aggregation.
pub open spec fn lowered_expr(expr: Expr, schema: Seq<FieldSpec>) -> Result<Expression, QueryFault>
    decreases expr,
{
    match expr {
        Expr::Column(c) => if has_field(schema, c.name@) {
            Ok(Expression::Column(ColumnExpression { i: first_index(schema, c.name@) as usize }))
        } else {
            Err(QueryFault::UnknownColumn(c.name@))
        },
        Expr::ColumnIndex(c) => Ok(Expression::Column(ColumnExpression { i: c.i })),
        Expr::Literal(LiteralExpr::LiteralString(s)) => Ok(
            Expression::LiteralString(LiteralStringExpression { value: s.str }),
        ),
        Expr::Literal(LiteralExpr::LiteralLong(l)) => Ok(
            Expression::LiteralLong(LiteralLongExpression { value: l.i }),
        ),
        Expr::Literal(LiteralExpr::LiteralFloat(_)) => Err(
            QueryFault::UnsupportedType(ArrowType::FloatType),
        ),
        Expr::Literal(LiteralExpr::LiteralDouble(_)) => Err(
            QueryFault::UnsupportedType(ArrowType::DoubleType),
        ),
        Expr::Cast(c) => match lowered_expr(*c.expr, schema) {
            Ok(e) => Ok(Expression::Cast(CastExpression { expr: Box::new(e), data_type: c.data_type })),
            Err(e) => Err(e),
        },
        Expr::Binary(b) => match lowered_expr(*b.l, schema) {
            Ok(l) => match lowered_expr(*b.r, schema) {
                Ok(r) => Ok(boolean_expression(b.op, l, r)),
                Err(e) => Err(e),
            },
            Err(e) => Err(e),
        },
        Expr::Math(m) => match lowered_expr(*m.l, schema) {
            Ok(l) => match lowered_expr(*m.r, schema) {
                Ok(r) => Ok(math_expression(m.op, l, r)),
                Err(e) => Err(e),
            },
            Err(e) => Err(e),
        },
        Expr::Alias(a) => lowered_expr(*a.expr, schema),
        Expr::Unary(_) => Err(QueryFault::UnsupportedExpression(expr.text())),
        Expr::Aggr(_) => Err(QueryFault::UnsupportedExpression(expr.text())),
    }
}

/// The physical expressions that the first `n` of a run of logical
/// expressions lower to; the first failure, from left to right.
pub open spec fn lowered_exprs(exprs: Seq<Expr>, schema: Seq<FieldSpec>, n: nat) -> Result<
    Seq<Expression>,
    QueryFault,
>
    decreases n,
{
    if n == 0 {
        Ok(Seq::empty())
    } else {
        match lowered_exprs(exprs, schema, (n - 1) as nat) {
            Err(e) => Err(e),
            Ok(done) => match lowered_expr(exprs[n - 1], schema) {
                Ok(e) => Ok(done.push(e)),
                Err(e) => Err(e),
            },
        }
    }
}

/// Expressions whose first ones fail to lower fail as they do.
pub proof fn lemma_lowering_failure_stays(exprs: Seq<Expr>, schema: Seq<FieldSpec>, n: nat, m: nat)
    requires
        n <= m,
        lowered_exprs(exprs, schema, n) is Err,
    ensures
        lowered_exprs(exprs, schema, m) == lowered_exprs(exprs, schema, n),
    decreases m - n,
{
    if n < m {
        lemma_lowering_failure_stays(exprs, schema, n, (m - 1) as nat);
    }
}

/// The aggregate that a logical expression lowers to: the aggregate of its
/// kind over what its operand lowers to. Fails for an average, which has no
/// physical form, and for an expression that is no aggregate.
pub open spec fn lowered_aggregate(expr: Expr, schema: Seq<FieldSpec>) -> Result<
    AggregateExpression,
    QueryFault,
> {
    match expr {
        Expr::Aggr(a) => if a.kind == AggregateKind::Avg {
            Err(QueryFault::UnsupportedExpression(expr.text()))
        } else {
            match lowered_expr(*a.expr, schema) {
                Err(e) => Err(e),
                Ok(e) => Ok(
                    match a.kind {
                        AggregateKind::Sum => AggregateExpression::Sum(SumExpression { expr: e }),
                        AggregateKind::Max => AggregateExpression::Max(MaxExpression { expr: e }),
                        AggregateKind::Min => AggregateExpression::Min(MinExpression { expr: e }),
                        AggregateKind::Count => AggregateExpression::Count(
                            CountExpression { expr: e },
                        ),
                        _ => AggregateExpression::CountDistinct(
                            CountDistinctExpression { expr: e },
                        ),
                    },
                ),
            }
        },
        _ => Err(QueryFault::UnsupportedExpression(expr.text())),
    }
}

/// The aggregates that the first `n` of a run of logical expressions lower
/// to; the first failure, from left to right.
pub open spec fn lowered_aggregates(exprs: Seq<Expr>, schema: Seq<FieldSpec>, n: nat) -> Result<
    Seq<AggregateExpression>,
    QueryFault,
>
    decreases n,
{
    if n == 0 {
        Ok(Seq::empty())
    } else {
        match lowered_aggregates(exprs, schema, (n - 1) as nat) {
            Err(e) => Err(e),
            Ok(done) => match lowered_aggregate(exprs[n - 1], schema) {
                Ok(e) => Ok(done.push(e)),
                Err(e) => Err(e),
            },
        }
    }
}

/// Aggregates whose first ones fail to lower fail as they do.
pub proof fn lemma_aggregate_failure_stays(
    exprs: Seq<Expr>,
    schema: Seq<FieldSpec>,
    n: nat,
    m: nat,
)
    requires
        n <= m,
        lowered_aggregates(exprs, schema, n) is Err,
    ensures
        lowered_aggregates(exprs, schema, m) == lowered_aggregates(exprs, schema, n),
    decreases m - n,
{
    if n < m {
        lemma_aggregate_failure_stays(exprs, schema, n, (m - 1) as nat);
    }
}

/// The fields that the first `n` of a run of expressions give; the first
/// failure, from left to right.
pub open spec fn all_fields(exprs: Seq<Expr>, schema: Seq<FieldSpec>, n: nat) -> Result<
    Seq<FieldSpec>,
    QueryFault,
>
    decreases n,
{
    if n == 0 {
        Ok(Seq::empty())
    } else {
        match all_fields(exprs, schema, (n - 1) as nat) {
            Err(e) => Err(e),
            Ok(done) => match exprs[n - 1].field(schema) {
                Ok(f) => Ok(done.push(f)),
                Err(e) => Err(e),
            },
        }
    }
}

/// Expressions whose first ones give no field fail as they do.
pub proof fn lemma_fields_failure_stays(exprs: Seq<Expr>, schema: Seq<FieldSpec>, n: nat, m: nat)
    requires
        n <= m,
        all_fields(exprs, schema, n) is Err,
    ensures
        all_fields(exprs, schema, m) == all_fields(exprs, schema, n),
    decreases m - n,
{
    if n < m {
        lemma_fields_failure_stays(exprs, schema, n, (m - 1) as nat);
    }
}

/// Why the expressions of a node cannot be lowered: the first failure among
/// its expressions, then among the fields of a projection. `None` where
/// they can.
pub open spec fn node_fault(plan: LogicalPlan) -> Option<QueryFault> {
    match plan {
        LogicalPlan::Scan(_) => None,
        LogicalPlan::Selection(s) => match lowered_expr(s.expr, s.input.fields()) {
            Err(e) => Some(e),
            Ok(_) => None,
        },
        LogicalPlan::Projection(p) => match lowered_exprs(
            p.expr@,
            p.input.fields(),
            p.expr@.len(),
        ) {
            Err(e) => Some(e),
            Ok(_) => match all_fields(p.expr@, p.input.fields(), p.expr@.len()) {
                Err(e) => Some(e),
                Ok(_) => None,
            },
        },
        LogicalPlan::Aggregate(a) => match lowered_exprs(
            a.group_expr@,
            a.input.fields(),
            a.group_expr@.len(),
        ) {
            Err(e) => Some(e),
            Ok(_) => match lowered_aggregates(
                a.aggregate_expr@,
                a.input.fields(),
                a.aggregate_expr@.len(),
            ) {
                Err(e) => Some(e),
                Ok(_) => None,
            },
        },
        LogicalPlan::Limit(_) => Some(QueryFault::UnsupportedPlan(plan.text())),
    }
}

/// Why a plan cannot be lowered: a limit, which has no physical form; else
/// the failure of its input; else the failure of its own expressions.
/// `None` where it can.
pub open spec fn lowering_fault(plan: LogicalPlan) -> Option<QueryFault>
    decreases plan,
{
    match plan {
        LogicalPlan::Scan(_) => None,
        LogicalPlan::Limit(_) => node_fault(plan),
        LogicalPlan::Selection(s) => match lowering_fault(*s.input) {
            Some(e) => Some(e),
            None => node_fault(plan),
        },
        LogicalPlan::Projection(p) => match lowering_fault(*p.input) {
            Some(e) => Some(e),
            None => node_fault(plan),
        },
        LogicalPlan::Aggregate(a) => match lowering_fault(*a.input) {
            Some(e) => Some(e),
            None => node_fault(plan),
        },
    }
}

/// Whether `result` is the physical plan that a logical plan lowers to:
/// node for node the operator of the same kind, over the lowered input,
/// with the lowered expressions; a projection and an aggregation carry
/// the schema of their logical node.
pub open spec fn lowers(plan: LogicalPlan, result: PhysicalPlan) -> bool
    decreases plan,
{
    match plan {
        LogicalPlan::Scan(s) => result == PhysicalPlan::Scan(
            ScanExec { ds: s.datasource, projection: s.projection },
        ),
        LogicalPlan::Selection(s) => result matches PhysicalPlan::Selection(t) && lowers(
            *s.input,
            *t.input,
        ) && lowered_expr(s.expr, s.input.fields()) == Ok::<Expression, QueryFault>(t.expr),
        LogicalPlan::Projection(p) => result matches PhysicalPlan::Projection(t) && lowers(
            *p.input,
            *t.input,
        ) && lowered_exprs(p.expr@, p.input.fields(), p.expr@.len()) == Ok::<
            Seq<Expression>,
            QueryFault,
        >(t.expr@) && all_fields(p.expr@, p.input.fields(), p.expr@.len()) == Ok::<
            Seq<FieldSpec>,
            QueryFault,
        >(t.schema@),
        LogicalPlan::Aggregate(a) => result matches PhysicalPlan::HashAggregate(t) && lowers(
            *a.input,
            *t.input,
        ) && lowered_exprs(a.group_expr@, a.input.fields(), a.group_expr@.len()) == Ok::<
            Seq<Expression>,
            QueryFault,
        >(t.group_expr@) && lowered_aggregates(
            a.aggregate_expr@,
            a.input.fields(),
            a.aggregate_expr@.len(),
        ) == Ok::<Seq<AggregateExpression>, QueryFault>(t.aggregate_expr@) && t.schema@
            == plan.fields(),
        LogicalPlan::Limit(_) => false,
    }
}

/// Whether `r` is the result that is expected of the planner: the failure
/// that `lowering_fault` names, else a plan that `lowers` accepts.
pub open spec fn plan_gives(plan: LogicalPlan, r: Result<PhysicalPlan, QueryError>) -> bool {
    match lowering_fault(plan) {
        Some(e) => r is Err && r->Err_0@ == e,
        None => r is Ok && lowers(plan, r->Ok_0),
    }
}

/// Whether a result holds the expression, or the failure, that is
/// expected.
pub open spec fn expr_gives(r: Result<Expression, QueryError>, expected: Result<
    Expression,
    QueryFault,
>) -> bool {
    match expected {
        Ok(e) => r == Ok::<Expression, QueryError>(e),
        Err(e) => r is Err && r->Err_0@ == e,
    }
}

impl QueryPlanner {
    /// Lowers a logical plan to a physical plan.
    pub fn create_physical_plan(plan: LogicalPlan) -> (r: Result<PhysicalPlan, QueryError>)
        ensures
            plan_gives(plan, r),
        decreases plan,
    {
        match plan {
            LogicalPlan::Scan(scan) => {
                let Scan { path, datasource, projection, schema } = scan;
                Ok(PhysicalPlan::Scan(ScanExec { ds: datasource, projection }))
            },
            LogicalPlan::Selection(selection) => {
                let schema = selection.input.schema();
                let filter_expr = Self::create_physical_expr(&selection.expr, &schema);
                let Selection { input, expr } = selection;
                let input = match Self::create_physical_plan(*input) {
                    Ok(p) => p,
                    Err(e) => {
                        return Err(e);
                    },
                };
                match filter_expr {
                    Ok(expr) => Ok(
                        PhysicalPlan::Selection(SelectionExec { input: Box::new(input), expr }),
                    ),
                    Err(e) => Err(e),
                }
            },
            LogicalPlan::Projection(projection) => {
                let schema = projection.input.schema();
                let projection_expr = Self::create_physical_exprs(&projection.expr, &schema);
                let projection_fields = Self::create_fields(&projection.expr, &schema);
                let Projection { input, expr } = projection;
                let input = match Self::create_physical_plan(*input) {
                    Ok(p) => p,
                    Err(e) => {
                        return Err(e);
                    },
                };
                let projection_expr = match projection_expr {
                    Ok(e) => e,
                    Err(e) => {
                        return Err(e);
                    },
                };
                let projection_fields = match projection_fields {
                    Ok(f) => f,
                    Err(e) => {
                        return Err(e);
                    },
                };
                Ok(
                    PhysicalPlan::Projection(
                        ProjectionExec {
                            input: Box::new(input),
                            schema: Schema { fields: projection_fields },
                            expr: projection_expr,
                        },
                    ),
                )
            },
            LogicalPlan::Aggregate(aggregate) => {
                let schema = aggregate.input.schema();
                let mut fields: Vec<Field> = Vec::new();
                push_fields(&mut fields, &aggregate.group_expr, &schema);
                push_fields(&mut fields, &aggregate.aggregate_expr, &schema);
                let output = Schema { fields };
                let group_expr = Self::create_physical_exprs(&aggregate.group_expr, &schema);
                let aggregate_expr = Self::create_aggregates(&aggregate.aggregate_expr, &schema);
                let Aggregate { input, group_expr: _, aggregate_expr: _ } = aggregate;
                let input = match Self::create_physical_plan(*input) {
                    Ok(p) => p,
                    Err(e) => {
                        return Err(e);
                    },
                };
                let group_expr = match group_expr {
                    Ok(e) => e,
                    Err(e) => {
                        return Err(e);
                    },
                };
                let aggregate_expr = match aggregate_expr {
                    Ok(e) => e,
                    Err(e) => {
                        return Err(e);
                    },
                };
                Ok(
                    PhysicalPlan::HashAggregate(
                        HashAggregateExec {
                            input: Box::new(input),
                            group_expr,
                            aggregate_expr,
                            schema: output,
                        },
                    ),
                )
            },
            LogicalPlan::Limit(limit) => {
                let kind = limit.to_string();
                Err(QueryError::UnsupportedPlan(kind))
            },
        }
    }

    /// Lowers the expressions of a list, from left to right.
    fn create_physical_exprs(exprs: &Vec<Expr>, input: &Schema) -> (r: Result<
        Vec<Expression>,
        QueryError,
    >)
        ensures
            match lowered_exprs(exprs@, input@, exprs@.len()) {
                Ok(e) => r is Ok && r->Ok_0@ == e,
                Err(e) => r is Err && r->Err_0@ == e,
            },
    {
        let mut out: Vec<Expression> = Vec::new();
        let mut i: usize = 0;
        while i < exprs.len()
            invariant
                i <= exprs.len(),
                lowered_exprs(exprs@, input@, i as nat) == Ok::<Seq<Expression>, QueryFault>(out@),
            decreases exprs.len() - i,
        {
            match Self::create_physical_expr(&exprs[i], input) {
                Ok(e) => {
                    out.push(e);
                },
                Err(e) => {
                    proof {
                        lemma_lowering_failure_stays(
                            exprs@,
                            input@,
                            (i + 1) as nat,
                            exprs@.len(),
                        );
                    }
                    return Err(e);
                },
            }
            i = i + 1;
        }
        Ok(out)
    }

    /// Lowers the aggregates of a list, from left to right.
    fn create_aggregates(exprs: &Vec<Expr>, input: &Schema) -> (r: Result<
        Vec<AggregateExpression>,
        QueryError,
    >)
        ensures
            match lowered_aggregates(exprs@, input@, exprs@.len()) {
                Ok(e) => r is Ok && r->Ok_0@ == e,
                Err(e) => r is Err && r->Err_0@ == e,
            },
    {
        let mut out: Vec<AggregateExpression> = Vec::new();
        let mut i: usize = 0;
        while i < exprs.len()
            invariant
                i <= exprs.len(),
                lowered_aggregates(exprs@, input@, i as nat) == Ok::<
                    Seq<AggregateExpression>,
                    QueryFault,
                >(out@),
            decreases exprs.len() - i,
        {
            match Self::create_aggregate(&exprs[i], input) {
                Ok(e) => {
                    out.push(e);
                },
                Err(e) => {
                    proof {
                        lemma_aggregate_failure_stays(
                            exprs@,
                            input@,
                            (i + 1) as nat,
                            exprs@.len(),
                        );
                    }
                    return Err(e);
                },
            }
            i = i + 1;
        }
        Ok(out)
    }

    /// The fields that the expressions of a list give, from left to right.
    fn create_fields(exprs: &Vec<Expr>, input: &Schema) -> (r: Result<Vec<Field>, QueryError>)
        ensures
            match all_fields(exprs@, input@, exprs@.len()) {
                Ok(f) => r is Ok && r->Ok_0@.map_values(|f: Field| f@) == f,
                Err(e) => r is Err && r->Err_0@ == e,
            },
    {
        let mut out: Vec<Field> = Vec::new();
        let mut i: usize = 0;
        proof {
            assert(out@.map_values(|f: Field| f@) =~= Seq::<FieldSpec>::empty());
        }
        while i < exprs.len()
            invariant
                i <= exprs.len(),
                all_fields(exprs@, input@, i as nat) == Ok::<Seq<FieldSpec>, QueryFault>(
                    out@.map_values(|f: Field| f@),
                ),
            decreases exprs.len() - i,
        {
            let ghost before = out@.map_values(|f: Field| f@);
            match exprs[i].to_field_in(input) {
                Ok(f) => {
                    out.push(f);
                    proof {
                        assert(out@.map_values(|f: Field| f@) =~= before.push(f@));
                    }
                },
                Err(e) => {
                    proof {
                        lemma_fields_failure_stays(exprs@, input@, (i + 1) as nat, exprs@.len());
                    }
                    return Err(e);
                },
            }
            i = i + 1;
        }
        Ok(out)
    }

    /// Lowers an aggregate.
    fn create_aggregate(expr: &Expr, input: &Schema) -> (r: Result<
        AggregateExpression,
        QueryError,
    >)
        ensures
            match lowered_aggregate(*expr, input@) {
                Ok(e) => r == Ok::<AggregateExpression, QueryError>(e),
                Err(e) => r is Err && r->Err_0@ == e,
            },
    {
        match expr {
            Expr::Aggr(a) => {
                match a.kind {
                    AggregateKind::Avg => {
                        return Err(QueryError::UnsupportedExpression(expr.to_string()));
                    },
                    _ => {},
                }
                let e = match Self::create_physical_expr(&a.expr, input) {
                    Ok(e) => e,
                    Err(e) => {
                        return Err(e);
                    },
                };
                Ok(
                    match a.kind {
                        AggregateKind::Sum => AggregateExpression::Sum(SumExpression { expr: e }),
                        AggregateKind::Max => AggregateExpression::Max(MaxExpression { expr: e }),
                        AggregateKind::Min => AggregateExpression::Min(MinExpression { expr: e }),
                        AggregateKind::Count => AggregateExpression::Count(
                            CountExpression { expr: e },
                        ),
                        _ => AggregateExpression::CountDistinct(
                            CountDistinctExpression { expr: e },
                        ),
                    },
                )
            },
            _ => Err(QueryError::UnsupportedExpression(expr.to_string())),
        }
    }

    /// Lowers a logical expression to a physical expression, against an
    /// input of the schema `input`.
    pub fn create_physical_expr(expr: &Expr, input: &Schema) -> (r: Result<Expression, QueryError>)
        ensures
            expr_gives(r, lowered_expr(*expr, input@)),
        decreases expr,
    {
        match expr {
            Expr::Column(col) => match input.index_of(col.name.as_str()) {
                Some(i) => Ok(Expression::Column(ColumnExpression { i })),
                None => Err(QueryError::UnknownColumn(col.name.clone())),
            },
            Expr::ColumnIndex(col_index) => Ok(
                Expression::Column(ColumnExpression { i: col_index.i }),
            ),
            Expr::Literal(LiteralExpr::LiteralString(s)) => Ok(
                Expression::LiteralString(LiteralStringExpression { value: s.str.clone() }),
            ),
            Expr::Literal(LiteralExpr::LiteralLong(l)) => Ok(
                Expression::LiteralLong(LiteralLongExpression { value: l.i }),
            ),
            Expr::Literal(LiteralExpr::LiteralFloat(_)) => Err(
                QueryError::UnsupportedType(ArrowType::FloatType),
            ),
            Expr::Literal(LiteralExpr::LiteralDouble(_)) => Err(
                QueryError::UnsupportedType(ArrowType::DoubleType),
            ),
            Expr::Cast(cast) => match Self::create_physical_expr(&cast.expr, input) {
                Ok(e) => Ok(
                    Expression::Cast(
                        CastExpression { expr: Box::new(e), data_type: cast.data_type },
                    ),
                ),
                Err(e) => Err(e),
            },
            Expr::Binary(bin) => {
                let l = match Self::create_physical_expr(&bin.l, input) {
                    Ok(e) => Box::new(e),
                    Err(e) => {
                        return Err(e);
                    },
                };
                let r = match Self::create_physical_expr(&bin.r, input) {
                    Ok(e) => Box::new(e),
                    Err(e) => {
                        return Err(e);
                    },
                };
                Ok(
                    match bin.op {
                        BinaryOperator::And => Expression::And(AndExpression { l, r }),
                        BinaryOperator::Or => Expression::Or(OrExpression { l, r }),
                        BinaryOperator::Eq => Expression::Eq(EqExpression { l, r }),
                        BinaryOperator::Neq => Expression::Neq(NeqExpression { l, r }),
                        BinaryOperator::Gt => Expression::Gt(GtExpression { l, r }),
                        BinaryOperator::GtEq => Expression::GtEq(GtEqExpression { l, r }),
                        BinaryOperator::Lt => Expression::Lt(LtExpression { l, r }),
                        BinaryOperator::LtEq => Expression::LtEq(LtEqExpression { l, r }),
                    },
                )
            },
            Expr::Math(math) => {
                let l = match Self::create_physical_expr(&math.l, input) {
                    Ok(e) => Box::new(e),
                    Err(e) => {
                        return Err(e);
                    },
                };
                let r = match Self::create_physical_expr(&math.r, input) {
                    Ok(e) => Box::new(e),
                    Err(e) => {
                        return Err(e);
                    },
                };
                Ok(
                    match math.op {
                        MathOperator::Add => Expression::Add(AddExpression { l, r }),
                        MathOperator::Subtract => Expression::Subtract(
                            SubtractExpression { l, r },
                        ),
                        MathOperator::Multiply => Expression::Multiply(
                            MultiplyExpression { l, r },
                        ),
                        MathOperator::Divide => Expression::Divide(DivideExpression { l, r }),
                        MathOperator::Modulus => Expression::Modulus(ModulusExpression { l, r }),
                    },
                )
            },
            Expr::Alias(alias) => Self::create_physical_expr(&alias.expr, input),
            Expr::Unary(_) => Err(QueryError::UnsupportedExpression(expr.to_string())),
            Expr::Aggr(_) => Err(QueryError::UnsupportedExpression(expr.to_string())),
        }
    }
}

} // verus!
