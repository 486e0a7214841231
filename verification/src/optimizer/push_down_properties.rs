//! What projection push-down keeps, and what its scans read.

use crate::datatypes::schema::{
    all_known, find_field, first_index, has_field, lemma_first_index, selected, FieldSpec,
};
use crate::logical_plan::expressions::unary_expr::UnaryExpr;
use crate::logical_plan::expressions::{fields_of, Expr};
use crate::logical_plan::scan::{scan_fields, Scan};
use crate::logical_plan::LogicalPlan;
use crate::optimizer::all_columns;
use crate::optimizer::projection_push_down_rule::{
    node_columns, push_down_fault, pushed_down, pushes_down,
};
use crate::text::views;
use vstd::prelude::*;

verus! {

impl Expr {
    /// Whether the expression refers to columns by name only.
    pub open spec fn index_free(&self) -> bool
        decreases self,
    {
        match self {
            Expr::Column(_) => true,
            Expr::ColumnIndex(_) => false,
            Expr::Literal(_) => true,
            Expr::Cast(c) => c.expr.index_free(),
            Expr::Binary(b) => b.l.index_free() && b.r.index_free(),
            Expr::Unary(UnaryExpr::Not(n)) => n.expr.index_free(),
            Expr::Math(m) => m.l.index_free() && m.r.index_free(),
            Expr::Aggr(a) => a.expr.index_free(),
            Expr::Alias(a) => a.expr.index_free(),
        }
    }
}

/// Whether every expression of a run refers to columns by name only.
pub open spec fn all_index_free(exprs: Seq<Expr>) -> bool {
    forall|i: int| 0 <= i < exprs.len() ==> (#[trigger] exprs[i]).index_free()
}

impl LogicalPlan {
    /// The scan at the bottom of the plan.
    pub open spec fn leaf(&self) -> Scan
        decreases self,
    {
        match self {
            LogicalPlan::Scan(s) => *s,
            LogicalPlan::Selection(s) => s.input.leaf(),
            LogicalPlan::Projection(p) => p.input.leaf(),
            LogicalPlan::Aggregate(a) => a.input.leaf(),
            LogicalPlan::Limit(l) => l.input.leaf(),
        }
    }

    /// The names that the nodes of the plan refer to, each against the
    /// schema of its input. A node whose expressions hold a column index
    /// beyond the columns of its input adds none.
    pub open spec fn referenced(&self) -> Set<Seq<char>>
        decreases self,
    {
        let here = match node_columns(*self) {
            Ok(names) => names,
            Err(_) => Set::empty(),
        };
        match self {
            LogicalPlan::Scan(_) => here,
            LogicalPlan::Selection(s) => here + s.input.referenced(),
            LogicalPlan::Projection(p) => here + p.input.referenced(),
            LogicalPlan::Aggregate(a) => here + a.input.referenced(),
            LogicalPlan::Limit(l) => here + l.input.referenced(),
        }
    }

    /// Whether every expression of the plan refers to columns by name
    /// only.
    pub open spec fn index_free(&self) -> bool
        decreases self,
    {
        match self {
            LogicalPlan::Scan(_) => true,
            LogicalPlan::Selection(s) => s.expr.index_free() && s.input.index_free(),
            LogicalPlan::Projection(p) => all_index_free(p.expr@) && p.input.index_free(),
            LogicalPlan::Aggregate(a) => all_index_free(a.group_expr@) && all_index_free(
                a.aggregate_expr@,
            ) && a.input.index_free(),
            LogicalPlan::Limit(l) => l.input.index_free(),
        }
    }

    /// Whether the scan of the plan reads every field of its source whose
    /// name is among `names`: it reads all fields, or its projection holds
    /// each of them.
    pub open spec fn reads(&self, names: Set<Seq<char>>) -> bool {
        let scan = self.leaf();
        scan.projection@.len() == 0 || forall|n: Seq<char>|
            #[trigger] names.contains(n) && has_field(scan.datasource.fields(), n) ==> views(
                scan.projection@,
            ).contains(n)
    }

    /// Whether the scan of the plan reads all the fields of its source,
    /// and none of them is called by one of `names`.
    pub open spec fn reads_all_and_needs_none(&self, names: Set<Seq<char>>) -> bool {
        let scan = self.leaf();
        scan.projection@.len() == 0 && forall|n: Seq<char>| #[trigger]
            names.contains(n) ==> !has_field(scan.datasource.fields(), n)
    }

    /// Whether the schema of the plan comes from expressions: the first
    /// node below selections and limits is a projection or an aggregation.
    pub open spec fn derives_schema(&self) -> bool
        decreases self,
    {
        match self {
            LogicalPlan::Scan(_) => false,
            LogicalPlan::Selection(s) => s.input.derives_schema(),
            LogicalPlan::Projection(_) => true,
            LogicalPlan::Aggregate(_) => true,
            LogicalPlan::Limit(l) => l.input.derives_schema(),
        }
    }
}

/// Whether two schemas give the same field for every name of a set.
pub open spec fn agree(a: Seq<FieldSpec>, b: Seq<FieldSpec>, names: Set<Seq<char>>) -> bool {
    forall|n: Seq<char>| #[trigger] names.contains(n) ==> find_field(a, n) == find_field(b, n)
}

/// The columns of an expression without column indices do not depend on
/// the schema.
pub proof fn lemma_columns_of_index_free(e: Expr, a: Seq<FieldSpec>, b: Seq<FieldSpec>)
    requires
        e.index_free(),
    ensures
        e.columns(a) is Ok,
        e.columns(a) == e.columns(b),
    decreases e,
{
    match e {
        Expr::Column(_) => {},
        Expr::ColumnIndex(_) => {},
        Expr::Literal(_) => {},
        Expr::Cast(c) => {
            lemma_columns_of_index_free(*c.expr, a, b);
        },
        Expr::Binary(x) => {
            lemma_columns_of_index_free(*x.l, a, b);
            lemma_columns_of_index_free(*x.r, a, b);
        },
        Expr::Unary(UnaryExpr::Not(n)) => {
            lemma_columns_of_index_free(*n.expr, a, b);
        },
        Expr::Math(m) => {
            lemma_columns_of_index_free(*m.l, a, b);
            lemma_columns_of_index_free(*m.r, a, b);
        },
        Expr::Aggr(x) => {
            lemma_columns_of_index_free(*x.expr, a, b);
        },
        Expr::Alias(x) => {
            lemma_columns_of_index_free(*x.expr, a, b);
        },
    }
}

/// An expression without column indices gives the same field against two
/// schemas that agree on its columns.
pub proof fn lemma_field_of_agreeing(e: Expr, a: Seq<FieldSpec>, b: Seq<FieldSpec>)
    requires
        e.index_free(),
        agree(a, b, e.columns(a)->Ok_0),
    ensures
        e.field(a) == e.field(b),
    decreases e,
{
    match e {
        Expr::Column(c) => {
            assert(e.columns(a)->Ok_0.contains(c.name@));
        },
        Expr::ColumnIndex(_) => {},
        Expr::Literal(_) => {},
        Expr::Cast(c) => {
            lemma_field_of_agreeing(*c.expr, a, b);
        },
        Expr::Binary(_) => {},
        Expr::Unary(UnaryExpr::Not(_)) => {},
        Expr::Math(m) => {
            lemma_columns_of_index_free(*m.r, a, b);
            assert forall|n: Seq<char>| #[trigger]
                m.l.columns(a)->Ok_0.contains(n) implies find_field(a, n) == find_field(b, n) by {
                assert(e.columns(a)->Ok_0.contains(n));
            }
            lemma_field_of_agreeing(*m.l, a, b);
        },
        Expr::Aggr(x) => {
            lemma_field_of_agreeing(*x.expr, a, b);
        },
        Expr::Alias(x) => {
            lemma_field_of_agreeing(*x.expr, a, b);
        },
    }
}

/// The columns of a run of expressions without column indices do not
/// depend on the schema, and hold the columns of each of them.
pub proof fn lemma_all_columns_of_index_free(exprs: Seq<Expr>, a: Seq<FieldSpec>, b: Seq<FieldSpec>)
    requires
        all_index_free(exprs),
    ensures
        all_columns(exprs, a) is Ok,
        all_columns(exprs, a) == all_columns(exprs, b),
        forall|i: int, n: Seq<char>|
            0 <= i < exprs.len() && (#[trigger] exprs[i]).columns(a)->Ok_0.contains(n)
                ==> #[trigger] all_columns(exprs, a)->Ok_0.contains(n),
    decreases exprs.len(),
{
    if exprs.len() > 0 {
        let rest = exprs.drop_last();
        lemma_all_columns_of_index_free(rest, a, b);
        lemma_columns_of_index_free(exprs.last(), a, b);
        assert forall|i: int, n: Seq<char>|
            0 <= i < exprs.len() && (#[trigger] exprs[i]).columns(a)->Ok_0.contains(
                n,
            ) implies #[trigger] all_columns(exprs, a)->Ok_0.contains(n) by {
            if i < rest.len() {
                assert(rest[i] == exprs[i]);
            }
        }
    }
}

/// A run of expressions without column indices gives the same fields
/// against two schemas that agree on its columns.
pub proof fn lemma_fields_of_agreeing(exprs: Seq<Expr>, a: Seq<FieldSpec>, b: Seq<FieldSpec>)
    requires
        all_index_free(exprs),
        agree(a, b, all_columns(exprs, a)->Ok_0),
    ensures
        fields_of(exprs, a) == fields_of(exprs, b),
    decreases exprs.len(),
{
    if exprs.len() > 0 {
        let rest = exprs.drop_last();
        let last = exprs.last();
        lemma_all_columns_of_index_free(rest, a, b);
        lemma_columns_of_index_free(last, a, b);
        assert forall|n: Seq<char>| #[trigger]
            all_columns(rest, a)->Ok_0.contains(n) implies find_field(a, n) == find_field(
            b,
            n,
        ) by {
            assert(all_columns(exprs, a)->Ok_0.contains(n));
        }
        assert forall|n: Seq<char>| #[trigger]
            last.columns(a)->Ok_0.contains(n) implies find_field(a, n) == find_field(b, n) by {
            assert(all_columns(exprs, a)->Ok_0.contains(n));
        }
        lemma_fields_of_agreeing(rest, a, b);
        lemma_field_of_agreeing(last, a, b);
    }
}

/// The fields that a projection selects hold, for each of its names, the
/// first field of the source that is called so.
pub proof fn lemma_find_in_selected(source: Seq<FieldSpec>, names: Seq<Seq<char>>, n: Seq<char>)
    requires
        all_known(source, names),
    ensures
        names.contains(n) ==> find_field(selected(source, names), n) == find_field(source, n),
        !names.contains(n) ==> find_field(selected(source, names), n) is None,
{
    let chosen = selected(source, names);
    assert forall|k: int| 0 <= k < names.len() implies (#[trigger] chosen[k]).name == names[k] by {
        lemma_first_index(source, names[k]);
    }
    lemma_first_index(chosen, n);
    let i = first_index(chosen, n);
    if names.contains(n) {
        let k = choose|k: int| 0 <= k < names.len() && names[k] == n;
        if i >= chosen.len() {
            assert(chosen[k].name != n);
        }
    }
}

/// A scan that reads the names which are referred to gives, for each of
/// them, the field that the whole source gives.
pub proof fn lemma_scan_agrees(source: Seq<FieldSpec>, names: Seq<Seq<char>>, refs: Set<Seq<char>>)
    requires
        pushed_down(names, refs, source),
    ensures
        all_known(source, names),
        agree(source, scan_fields(source, names), refs),
{
    assert forall|n: Seq<char>| #[trigger] refs.contains(n) implies find_field(source, n)
        == find_field(scan_fields(source, names), n) by {
        if names.len() > 0 {
            lemma_find_in_selected(source, names, n);
        }
    }
}

/// Projection push-down keeps the field of every name that is referred to
/// from above, and the whole schema of a plan whose schema comes from
/// expressions or whose source has no field that is referred to.
pub proof fn lemma_push_down_agrees(plan: LogicalPlan, refs: Set<Seq<char>>, result: LogicalPlan)
    requires
        pushes_down(plan, refs, result),
        push_down_fault(plan) is None,
        plan.index_free(),
        plan.leaf().wf(),
        plan.reads(refs + plan.referenced()),
    ensures
        agree(plan.fields(), result.fields(), refs),
        plan.derives_schema() ==> result.fields() == plan.fields(),
        plan.reads_all_and_needs_none(refs + plan.referenced()) ==> result.fields()
            == plan.fields(),
    decreases plan,
{
    match plan {
        LogicalPlan::Scan(s) => {
            let t = result->Scan_0;
            let source = s.datasource.fields();
            let before = views(s.projection@);
            let after = views(t.projection@);
            lemma_scan_agrees(source, after, refs);
            assert(refs + plan.referenced() =~= refs);
            assert forall|n: Seq<char>| #[trigger] refs.contains(n) implies find_field(source, n)
                == find_field(scan_fields(source, before), n) by {
                if before.len() > 0 {
                    lemma_find_in_selected(source, before, n);
                }
            }
            if plan.reads_all_and_needs_none(refs + plan.referenced()) && after.len() > 0 {
                assert(after.contains(after[0]));
            }
        },
        LogicalPlan::Selection(s) => {
            let t = result->Selection_0;
            let wider = refs + node_columns(plan)->Ok_0;
            assert(wider + s.input.referenced() =~= refs + plan.referenced());
            lemma_push_down_agrees(*s.input, wider, *t.input);
            assert forall|n: Seq<char>| #[trigger] refs.contains(n) implies find_field(
                plan.fields(),
                n,
            ) == find_field(result.fields(), n) by {
                assert(wider.contains(n));
            }
        },
        LogicalPlan::Projection(p) => {
            let t = result->Projection_0;
            let wider = refs + node_columns(plan)->Ok_0;
            assert(wider + p.input.referenced() =~= refs + plan.referenced());
            lemma_push_down_agrees(*p.input, wider, *t.input);
            assert forall|n: Seq<char>| #[trigger]
                all_columns(p.expr@, p.input.fields())->Ok_0.contains(n) implies find_field(
                p.input.fields(),
                n,
            ) == find_field(t.input.fields(), n) by {
                assert(wider.contains(n));
            }
            lemma_fields_of_agreeing(p.expr@, p.input.fields(), t.input.fields());
        },
        LogicalPlan::Aggregate(a) => {
            let t = result->Aggregate_0;
            let wider = refs + node_columns(plan)->Ok_0;
            assert(wider + a.input.referenced() =~= refs + plan.referenced());
            lemma_push_down_agrees(*a.input, wider, *t.input);
            assert forall|n: Seq<char>| #[trigger]
                all_columns(a.group_expr@, a.input.fields())->Ok_0.contains(n) implies find_field(
                a.input.fields(),
                n,
            ) == find_field(t.input.fields(), n) by {
                assert(wider.contains(n));
            }
            assert forall|n: Seq<char>| #[trigger]
                all_columns(a.aggregate_expr@, a.input.fields())->Ok_0.contains(
                    n,
                ) implies find_field(a.input.fields(), n) == find_field(t.input.fields(), n) by {
                assert(wider.contains(n));
            }
            lemma_fields_of_agreeing(a.group_expr@, a.input.fields(), t.input.fields());
            lemma_fields_of_agreeing(a.aggregate_expr@, a.input.fields(), t.input.fields());
        },
        LogicalPlan::Limit(_) => {},
    }
}

/// Projection push-down keeps the schema of the plan. This holds of a
/// plan that refers to columns by name only and whose scan reads the
/// fields that the plan refers to, where the plan takes its schema from a
/// projection or an aggregation, or where its scan reads all the fields of
/// a source that has none of the names that the plan refers to.
pub proof fn theorem_optimize_keeps_schema(plan: LogicalPlan, optimized: LogicalPlan)
    requires
        push_down_fault(plan) is None,
        pushes_down(plan, Set::empty(), optimized),
        plan.leaf().wf(),
        plan.index_free(),
        plan.reads(plan.referenced()),
        plan.derives_schema() || plan.reads_all_and_needs_none(plan.referenced()),
    ensures
        optimized.fields() == plan.fields(),
{
    lemma_push_down_agrees(plan, Set::empty(), optimized);
}

/// The scan of a plan that projection push-down made reads the names that
/// the plan refers to and that the source has, and no others.
pub proof fn lemma_leaf_reads_what_is_referenced(
    plan: LogicalPlan,
    refs: Set<Seq<char>>,
    result: LogicalPlan,
)
    requires
        pushes_down(plan, refs, result),
        push_down_fault(plan) is None,
    ensures
        result.leaf().datasource == plan.leaf().datasource,
        pushed_down(
            views(result.leaf().projection@),
            refs + plan.referenced(),
            plan.leaf().datasource.fields(),
        ),
    decreases plan,
{
    match plan {
        LogicalPlan::Scan(_) => {},
        LogicalPlan::Selection(s) => {
            let t = result->Selection_0;
            let wider = refs + node_columns(plan)->Ok_0;
            lemma_leaf_reads_what_is_referenced(*s.input, wider, *t.input);
        },
        LogicalPlan::Projection(p) => {
            let t = result->Projection_0;
            let wider = refs + node_columns(plan)->Ok_0;
            lemma_leaf_reads_what_is_referenced(*p.input, wider, *t.input);
        },
        LogicalPlan::Aggregate(a) => {
            let t = result->Aggregate_0;
            let wider = refs + node_columns(plan)->Ok_0;
            lemma_leaf_reads_what_is_referenced(*a.input, wider, *t.input);
        },
        LogicalPlan::Limit(_) => {},
    }
}

/// After projection push-down the scan of a plan reads exactly the columns
/// that the plan refers to and that its source has: a name is in its
/// projection exactly if a node above it refers to the name and the source
/// has a field called so.
pub proof fn theorem_scan_reads_what_is_referenced(plan: LogicalPlan, optimized: LogicalPlan)
    requires
        push_down_fault(plan) is None,
        pushes_down(plan, Set::empty(), optimized),
    ensures
        optimized.leaf().datasource == plan.leaf().datasource,
        forall|n: Seq<char>|
            views(optimized.leaf().projection@).contains(n) <==> plan.referenced().contains(n)
                && has_field(plan.leaf().datasource.fields(), n),
{
    lemma_leaf_reads_what_is_referenced(plan, Set::empty(), optimized);
    assert(Set::<Seq<char>>::empty() + plan.referenced() =~= plan.referenced());
}

} // verus!
