//! Projection push-down: every scan reads only the columns that the plan
//! refers to.

use crate::datatypes::schema::{
    first_index, has_field, lemma_first_index_is, lemma_has_field, FieldSpec, Schema,
};
use crate::error::{QueryError, QueryFault};
use crate::logical_plan::aggregate::Aggregate;
use crate::logical_plan::projection::Projection;
use crate::logical_plan::scan::Scan;
use crate::logical_plan::selection::Selection;
use crate::logical_plan::LogicalPlan;
use crate::optimizer::{
    all_columns, contains_name, extract_all_columns, extract_columns, name_set,
};
use crate::text::views;
use vstd::prelude::*;
use vstd::string::*;

verus! {

/// The rule that pushes projections down to the scans.
pub struct ProjectionPushDownRule;

/// Whether a list of names is in the order of the fields of a source,
/// each name once: a name stands before another where the first field
/// called so stands before the first field called like the other.
pub open spec fn in_source_order(names: Seq<Seq<char>>, source: Seq<FieldSpec>) -> bool {
    forall|i: int, j: int|
        0 <= i < j < names.len() ==> first_index(source, names[i]) < first_index(
            source,
            names[j],
        )
}

/// Whether `names` is the projection that the rule gives a scan: the names
/// that the plan refers to and that the source has, each once, in the
/// order of the fields of the source.
pub open spec fn pushed_down(
    names: Seq<Seq<char>>,
    refs: Set<Seq<char>>,
    source: Seq<FieldSpec>,
) -> bool {
    &&& in_source_order(names, source)
    &&& forall|n: Seq<char>| names.contains(n) <==> (refs.contains(n) && has_field(source, n))
}

/// The names that a node refers to in its own expressions, against the
/// schema of its input.
pub open spec fn node_columns(plan: LogicalPlan) -> Result<Set<Seq<char>>, QueryFault> {
    match plan {
        LogicalPlan::Scan(_) => Ok(Set::empty()),
        LogicalPlan::Selection(s) => s.expr.columns(s.input.fields()),
        LogicalPlan::Projection(p) => all_columns(p.expr@, p.input.fields()),
        LogicalPlan::Aggregate(a) => match all_columns(a.group_expr@, a.input.fields()) {
            Ok(g) => match all_columns(a.aggregate_expr@, a.input.fields()) {
                Ok(x) => Ok(g + x),
                Err(e) => Err(e),
            },
            Err(e) => Err(e),
        },
        LogicalPlan::Limit(l) => Err(QueryFault::UnsupportedPlan(plan.text())),
    }
}

/// Why the rule fails on a plan: the first node, from the root down, that
/// it does not handle, or whose expressions hold a column index beyond the
/// columns of its input. `None` where the rule succeeds.
pub open spec fn push_down_fault(plan: LogicalPlan) -> Option<QueryFault>
    decreases plan,
{
    match node_columns(plan) {
        Err(e) => Some(e),
        Ok(_) => match plan {
            LogicalPlan::Scan(_) => None,
            LogicalPlan::Selection(s) => push_down_fault(*s.input),
            LogicalPlan::Projection(p) => push_down_fault(*p.input),
            LogicalPlan::Aggregate(a) => push_down_fault(*a.input),
            LogicalPlan::Limit(l) => None,
        },
    }
}

/// Whether `result` is the plan that the rule makes of `plan`, where the
/// names `refs` are referred to from above: the same nodes with the same
/// expressions, over a scan of the same source that reads the names that
/// are referred to.
pub open spec fn pushes_down(plan: LogicalPlan, refs: Set<Seq<char>>, result: LogicalPlan) -> bool
    decreases plan,
{
    match plan {
        LogicalPlan::Scan(s) => result matches LogicalPlan::Scan(t) && t.wf() && t.path == s.path
            && t.datasource == s.datasource && pushed_down(
            views(t.projection@),
            refs,
            s.datasource.fields(),
        ),
        LogicalPlan::Selection(s) => result matches LogicalPlan::Selection(t) && t.expr == s.expr
            && pushes_down(*s.input, refs + node_columns(plan)->Ok_0, *t.input),
        LogicalPlan::Projection(p) => result matches LogicalPlan::Projection(t) && t.expr == p.expr
            && pushes_down(*p.input, refs + node_columns(plan)->Ok_0, *t.input),
        LogicalPlan::Aggregate(a) => result matches LogicalPlan::Aggregate(t) && t.group_expr
            == a.group_expr && t.aggregate_expr == a.aggregate_expr && pushes_down(
            *a.input,
            refs + node_columns(plan)->Ok_0,
            *t.input,
        ),
        LogicalPlan::Limit(_) => false,
    }
}

/// Whether `r` is the result that is expected of the rule: the failure that
/// `push_down_fault` names, else a plan that `pushes_down` accepts.
pub open spec fn optimize_gives(
    plan: LogicalPlan,
    refs: Set<Seq<char>>,
    r: Result<LogicalPlan, QueryError>,
) -> bool {
    match push_down_fault(plan) {
        Some(e) => r is Err && r->Err_0@ == e,
        None => r is Ok && pushes_down(plan, refs, r->Ok_0),
    }
}

/// Whether one of the first `i` fields is called `n`.
pub open spec fn named_within(source: Seq<FieldSpec>, i: int, n: Seq<char>) -> bool {
    exists|k: int| 0 <= k < i && (#[trigger] source[k]).name == n
}

impl ProjectionPushDownRule {
    /// Applies the rule to a plan to which nothing refers from above.
    pub fn optimize(&self, plan: LogicalPlan) -> (r: Result<LogicalPlan, QueryError>)
        ensures
            optimize_gives(plan, Set::empty(), r),
    {
        let mut col_set: Vec<String> = Vec::new();
        proof {
            assert(name_set(views(col_set@)) =~= Set::<Seq<char>>::empty());
        }
        Self::push_down(plan, &mut col_set)
    }

    /// The projection of a scan of a source with the fields `source`: the
    /// names among `column_names` that the source has, each once, in the
    /// order of the fields of the source.
    pub fn scan_projection(source: &Schema, column_names: &Vec<String>) -> (r: Vec<String>)
        ensures
            pushed_down(views(r@), name_set(views(column_names@)), source@),
    {
        let mut out: Vec<String> = Vec::new();
        let mut i: usize = 0;
        let ghost refs = name_set(views(column_names@));
        while i < source.fields.len()
            invariant
                i <= source.fields.len(),
                refs == name_set(views(column_names@)),
                in_source_order(views(out@), source@),
                forall|k: int|
                    0 <= k < out@.len() ==> first_index(source@, #[trigger] views(out@)[k]) < i,
                forall|n: Seq<char>|
                    #[trigger] views(out@).contains(n) <==> (refs.contains(n) && named_within(
                        source@,
                        i as int,
                        n,
                    )),
            decreases source.fields.len() - i,
        {
            let name: &str = source.fields[i].name.as_str();
            let ghost before = views(out@);
            if contains_name(column_names, name) && !contains_name(&out, name) {
                proof {
                    assert forall|k: int| 0 <= k < i implies (#[trigger] source@[k]).name
                        != name@ by {
                        if source@[k].name == name@ {
                            assert(named_within(source@, i as int, name@));
                        }
                    }
                    lemma_first_index_is(source@, name@, i as int);
                }
                out.push(name.to_owned());
                proof {
                    assert(views(out@) =~= before.push(name@));
                }
            }
            proof {
                assert forall|n: Seq<char>| #[trigger]
                    views(out@).contains(n) <==> (refs.contains(n) && named_within(
                        source@,
                        i + 1,
                        n,
                    )) by {
                    if views(out@).contains(n) {
                        let k = choose|k: int| 0 <= k < out@.len() && views(out@)[k] == n;
                        if k < before.len() {
                            assert(before[k] == n);
                            assert(before.contains(n));
                        }
                    }
                    if before.contains(n) {
                        let k = choose|k: int| 0 <= k < before.len() && before[k] == n;
                        assert(views(out@)[k] == n);
                    }
                    if named_within(source@, i as int, n) {
                        let k = choose|k: int| 0 <= k < i && (#[trigger] source@[k]).name == n;
                        assert(0 <= k < i + 1 && source@[k].name == n);
                    }
                    if named_within(source@, i + 1, n) {
                        let k = choose|k: int| 0 <= k < i + 1 && (#[trigger] source@[k]).name == n;
                        if k < i {
                            assert(named_within(source@, i as int, n));
                        }
                    }
                    if n == name@ {
                        assert(0 <= i < i + 1 && source@[i as int].name == n);
                        if views(out@).len() > before.len() {
                            assert(views(out@)[before.len() as int] == n);
                        }
                    }
                }
            }
            i = i + 1;
        }
        proof {
            assert forall|n: Seq<char>| views(out@).contains(n) <==> (refs.contains(n) && has_field(
                source@,
                n,
            )) by {
                lemma_has_field(source@, n);
                if has_field(source@, n) {
                    let k = choose|k: int| 0 <= k < source@.len() && (#[trigger] source@[k]).name == n;
                }
                if named_within(source@, i as int, n) {
                    let k = choose|k: int| 0 <= k < i && (#[trigger] source@[k]).name == n;
                }
            }
        }
        out
    }

    /// Rewrites a plan from the root down. `column_names` gathers the names
    /// that the nodes passed so far refer to; a scan is rebuilt to read
    /// those of them that its source has. Where the rule succeeds, the
    /// names that were gathered before are kept, and those that the plan
    /// refers to have joined them.
    pub fn push_down(plan: LogicalPlan, column_names: &mut Vec<String>) -> (r: Result<
        LogicalPlan,
        QueryError,
    >)
        ensures
            optimize_gives(plan, name_set(views(old(column_names)@)), r),
            r is Ok ==> name_set(views(final(column_names)@)) == name_set(
                views(old(column_names)@),
            ) + plan.referenced(),
        decreases plan,
    {
        let ghost refs = name_set(views(column_names@));
        let ghost whole = plan;
        match plan {
            LogicalPlan::Projection(projection) => {
                let schema = projection.input.schema();
                match extract_all_columns(&projection.expr, &schema, column_names) {
                    Ok(()) => {},
                    Err(e) => {
                        return Err(e);
                    },
                }
                let Projection { input, expr } = projection;
                let ghost below = input.referenced();
                let ghost here = node_columns(whole)->Ok_0;
                match Self::push_down(*input, column_names) {
                    Ok(input) => {
                        Ok(LogicalPlan::Projection(Projection::new(input, expr)))
                    },
                    Err(e) => Err(e),
                }
            },
            LogicalPlan::Selection(selection) => {
                let schema = selection.input.schema();
                match extract_columns(&selection.expr, &schema, column_names) {
                    Ok(()) => {},
                    Err(e) => {
                        return Err(e);
                    },
                }
                let Selection { input, expr } = selection;
                let ghost below = input.referenced();
                let ghost here = node_columns(whole)->Ok_0;
                match Self::push_down(*input, column_names) {
                    Ok(input) => {
                        Ok(LogicalPlan::Selection(Selection::new(input, expr)))
                    },
                    Err(e) => Err(e),
                }
            },
            LogicalPlan::Aggregate(aggregate) => {
                let schema = aggregate.input.schema();
                match extract_all_columns(&aggregate.group_expr, &schema, column_names) {
                    Ok(()) => {},
                    Err(e) => {
                        return Err(e);
                    },
                }
                match extract_all_columns(&aggregate.aggregate_expr, &schema, column_names) {
                    Ok(()) => {},
                    Err(e) => {
                        return Err(e);
                    },
                }
                proof {
                    let g = all_columns(aggregate.group_expr@, schema@)->Ok_0;
                    let x = all_columns(aggregate.aggregate_expr@, schema@)->Ok_0;
                    assert((refs + g) + x =~= refs + (g + x));
                }
                let Aggregate { input, group_expr, aggregate_expr } = aggregate;
                let ghost below = input.referenced();
                let ghost here = node_columns(whole)->Ok_0;
                match Self::push_down(*input, column_names) {
                    Ok(input) => {
                        Ok(
                            LogicalPlan::Aggregate(
                                Aggregate { input: Box::new(input), group_expr, aggregate_expr },
                            ),
                        )
                    },
                    Err(e) => Err(e),
                }
            },
            LogicalPlan::Scan(scan) => {
                let source = scan.datasource.schema();
                let push_down_vec = Self::scan_projection(&source, column_names);
                let Scan { path, datasource, projection, schema } = scan;
                match Scan::new(path, datasource, push_down_vec) {
                    Ok(s) => Ok(LogicalPlan::Scan(s)),
                    Err(e) => Err(e),
                }
            },
            LogicalPlan::Limit(limit) => {
                let kind = limit.to_string();
                Err(QueryError::UnsupportedPlan(kind))
            },
        }
    }
}

} // verus!
