//! The optimizer: rewrites of a logical plan that keep what it computes.

pub mod projection_push_down_rule;
pub mod push_down_properties;

use crate::datatypes::schema::{FieldSpec, Schema};
use crate::error::{QueryError, QueryFault};
use crate::logical_plan::expressions::unary_expr::UnaryExpr;
use crate::logical_plan::expressions::Expr;
use crate::logical_plan::LogicalPlan;
use crate::optimizer::projection_push_down_rule::{optimize_gives, ProjectionPushDownRule};
use crate::text::{text_eq, views};
use vstd::prelude::*;
use vstd::string::*;

verus! {

/// Applies the rules of the optimizer to a plan.
pub struct Optimizer;

impl Optimizer {
    /// The plan with every scan narrowed to the columns that the plan
    /// refers to. Fails where the plan holds a node that the rule does not
    /// handle, or a column index beyond the columns of its input.
    pub fn optimize(plan: LogicalPlan) -> (r: Result<LogicalPlan, QueryError>)
        ensures
            optimize_gives(plan, Set::empty(), r),
    {
        let rule = ProjectionPushDownRule;
        rule.optimize(plan)
    }
}

/// The names that a list holds.
pub open spec fn name_set(names: Seq<Seq<char>>) -> Set<Seq<char>> {
    Set::new(|n: Seq<char>| names.contains(n))
}

impl Expr {
    /// The columns that the expression refers to, against an input of the
    /// schema `schema`: the names of its column references, and the names
    /// of the fields at its column indices. A failure for a column index
    /// beyond the fields of the schema: the first one, from left to right.
    pub open spec fn columns(&self, schema: Seq<FieldSpec>) -> Result<Set<Seq<char>>, QueryFault>
        decreases self,
    {
        match self {
            Expr::Column(c) => Ok(set![c.name@]),
            Expr::ColumnIndex(c) => if c.i < schema.len() {
                Ok(set![schema[c.i as int].name])
            } else {
                Err(QueryFault::IndexOutOfRange(c.i))
            },
            Expr::Literal(_) => Ok(Set::empty()),
            Expr::Cast(c) => c.expr.columns(schema),
            Expr::Binary(b) => match b.l.columns(schema) {
                Ok(l) => match b.r.columns(schema) {
                    Ok(r) => Ok(l + r),
                    Err(e) => Err(e),
                },
                Err(e) => Err(e),
            },
            Expr::Unary(UnaryExpr::Not(n)) => n.expr.columns(schema),
            Expr::Math(m) => match m.l.columns(schema) {
                Ok(l) => match m.r.columns(schema) {
                    Ok(r) => Ok(l + r),
                    Err(e) => Err(e),
                },
                Err(e) => Err(e),
            },
            Expr::Aggr(a) => a.expr.columns(schema),
            Expr::Alias(a) => a.expr.columns(schema),
        }
    }
}

/// The columns that a run of expressions refers to; the first failure, from
/// left to right.
pub open spec fn all_columns(exprs: Seq<Expr>, schema: Seq<FieldSpec>) -> Result<
    Set<Seq<char>>,
    QueryFault,
>
    decreases exprs.len(),
{
    if exprs.len() == 0 {
        Ok(Set::empty())
    } else {
        match all_columns(exprs.drop_last(), schema) {
            Ok(before) => match exprs.last().columns(schema) {
                Ok(here) => Ok(before + here),
                Err(e) => Err(e),
            },
            Err(e) => Err(e),
        }
    }
}

/// Whether `extract_columns` did what is expected of it: the names are
/// added to those gathered before, or the failure is reported.
pub open spec fn extracts(
    before: Seq<String>,
    expected: Result<Set<Seq<char>>, QueryFault>,
    r: Result<(), QueryError>,
    after: Seq<String>,
) -> bool {
    match expected {
        Ok(names) => r is Ok && name_set(views(after)) == name_set(views(before)) + names,
        Err(e) => r is Err && r->Err_0@ == e,
    }
}

/// Whether a list holds a name.
pub fn contains_name(names: &Vec<String>, name: &str) -> (r: bool)
    ensures
        r == views(names@).contains(name@),
{
    let mut i: usize = 0;
    while i < names.len()
        invariant
            i <= names.len(),
            forall|k: int| 0 <= k < i ==> (#[trigger] views(names@)[k]) != name@,
        decreases names.len() - i,
    {
        if text_eq(names[i].as_str(), name) {
            assert(views(names@)[i as int] == name@);
            return true;
        }
        i = i + 1;
    }
    false
}

/// Adds a name to a list, unless the list holds it.
pub fn add_name(names: &mut Vec<String>, name: &str)
    ensures
        name_set(views(final(names)@)) == name_set(views(old(names)@)).insert(name@),
{
    let ghost before = views(names@);
    if !contains_name(names, name) {
        names.push(name.to_owned());
        proof {
            assert(views(names@) =~= before.push(name@));
            assert forall|n: Seq<char>| name_set(views(names@)).contains(n) == name_set(
                before,
            ).insert(name@).contains(n) by {
                if before.contains(n) {
                    let k = choose|k: int| 0 <= k < before.len() && before[k] == n;
                    assert(views(names@)[k] == n);
                }
                if n == name@ {
                    assert(views(names@)[before.len() as int] == n);
                }
            }
        }
    }
}

/// Gathers the columns that the expressions refer to.
pub fn extract_all_columns(expr: &Vec<Expr>, input: &Schema, accum: &mut Vec<String>) -> (r:
    Result<(), QueryError>)
    ensures
        extracts(old(accum)@, all_columns(expr@, input@), r, final(accum)@),
{
    let ghost before = name_set(views(accum@));
    let mut i: usize = 0;
    while i < expr.len()
        invariant
            i <= expr.len(),
            all_columns(expr@.subrange(0, i as int), input@) is Ok,
            name_set(views(accum@)) == before + all_columns(
                expr@.subrange(0, i as int),
                input@,
            )->Ok_0,
        decreases expr.len() - i,
    {
        proof {
            let t = expr@.subrange(0, i + 1);
            assert(t.drop_last() =~= expr@.subrange(0, i as int));
        }
        match extract_columns(&expr[i], input, accum) {
            Ok(()) => {},
            Err(e) => {
                proof {
                    lemma_columns_failure_stays(expr@, input@, i + 1);
                }
                return Err(e);
            },
        }
        i = i + 1;
    }
    proof {
        assert(expr@.subrange(0, i as int) =~= expr@);
    }
    Ok(())
}

/// A run of expressions whose first ones fail fails as they do.
pub proof fn lemma_columns_failure_stays(exprs: Seq<Expr>, schema: Seq<FieldSpec>, k: int)
    requires
        0 <= k <= exprs.len(),
        all_columns(exprs.subrange(0, k), schema) is Err,
    ensures
        all_columns(exprs, schema) == all_columns(exprs.subrange(0, k), schema),
    decreases exprs.len() - k,
{
    if k == exprs.len() {
        assert(exprs.subrange(0, k) =~= exprs);
    } else {
        assert(exprs.subrange(0, k + 1).drop_last() =~= exprs.subrange(0, k));
        lemma_columns_failure_stays(exprs, schema, k + 1);
    }
}

/// Gathers the columns that an expression refers to.
pub fn extract_columns(expr: &Expr, input: &Schema, accum: &mut Vec<String>) -> (r: Result<
    (),
    QueryError,
>)
    ensures
        extracts(old(accum)@, expr.columns(input@), r, final(accum)@),
    decreases expr,
{
    let ghost before = name_set(views(accum@));
    match expr {
        Expr::Column(c) => {
            add_name(accum, c.name.as_str());
            proof {
                assert(before.insert(c.name@) =~= before + set![c.name@]);
            }
            Ok(())
        },
        Expr::ColumnIndex(c) => {
            if c.i < input.fields.len() {
                add_name(accum, input.fields[c.i].name.as_str());
                proof {
                    let n = input@[c.i as int].name;
                    assert(before.insert(n) =~= before + set![n]);
                }
                Ok(())
            } else {
                Err(QueryError::IndexOutOfRange(c.i))
            }
        },
        Expr::Literal(_) => {
            proof {
                assert(before + Set::<Seq<char>>::empty() =~= before);
            }
            Ok(())
        },
        Expr::Cast(c) => extract_columns(&c.expr, input, accum),
        Expr::Binary(b) => {
            match extract_columns(&b.l, input, accum) {
                Ok(()) => {},
                Err(e) => {
                    return Err(e);
                },
            }
            match extract_columns(&b.r, input, accum) {
                Ok(()) => {
                    proof {
                        let l = b.l.columns(input@)->Ok_0;
                        let r = b.r.columns(input@)->Ok_0;
                        assert((before + l) + r =~= before + (l + r));
                    }
                    Ok(())
                },
                Err(e) => Err(e),
            }
        },
        Expr::Unary(UnaryExpr::Not(n)) => extract_columns(&n.expr, input, accum),
        Expr::Math(m) => {
            match extract_columns(&m.l, input, accum) {
                Ok(()) => {},
                Err(e) => {
                    return Err(e);
                },
            }
            match extract_columns(&m.r, input, accum) {
                Ok(()) => {
                    proof {
                        let l = m.l.columns(input@)->Ok_0;
                        let r = m.r.columns(input@)->Ok_0;
                        assert((before + l) + r =~= before + (l + r));
                    }
                    Ok(())
                },
                Err(e) => Err(e),
            }
        },
        Expr::Aggr(a) => extract_columns(&a.expr, input, accum),
        Expr::Alias(a) => extract_columns(&a.expr, input, accum),
    }
}

} // verus!
