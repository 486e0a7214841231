//! The projection of a plan onto all its columns.

use crate::datatypes::schema::{first_index, lemma_first_index_is, FieldSpec};
use crate::error::QueryFault;
use crate::logical_plan::expressions::{fields_of, Expr};
use crate::physical_plan::expressions::Expression;
use crate::physical_plan::projection_exec::all_columns_of;
use crate::query_planner::{lowered_expr, lowered_exprs};
use vstd::prelude::*;

verus! {

/// Whether a run of expressions names the fields of a schema, one after
/// the other.
pub open spec fn names_all(exprs: Seq<Expr>, schema: Seq<FieldSpec>) -> bool {
    &&& exprs.len() == schema.len()
    &&& forall|i: int|
        0 <= i < exprs.len() ==> ((#[trigger] exprs[i]) matches Expr::Column(c) && c.name@
            == schema[i].name)
}

/// Whether no two fields of a schema have the same name.
pub open spec fn distinct_names(schema: Seq<FieldSpec>) -> bool {
    forall|i: int, j: int|
        0 <= i < j < schema.len() ==> (#[trigger] schema[i]).name != (#[trigger] schema[j]).name
}

/// In a schema without repeated names, every field is the first of its
/// name.
pub proof fn lemma_first_of_its_name(schema: Seq<FieldSpec>, i: int)
    requires
        distinct_names(schema),
        0 <= i < schema.len(),
    ensures
        first_index(schema, schema[i].name) == i,
{
    lemma_first_index_is(schema, schema[i].name, i);
}

/// The fields of the first `k` expressions that name the fields of a
/// schema are the first `k` fields.
pub proof fn lemma_fields_of_all_names(exprs: Seq<Expr>, schema: Seq<FieldSpec>, k: int)
    requires
        names_all(exprs, schema),
        distinct_names(schema),
        0 <= k <= exprs.len(),
    ensures
        fields_of(exprs.subrange(0, k), schema) == schema.subrange(0, k),
    decreases k,
{
    if k > 0 {
        lemma_fields_of_all_names(exprs, schema, k - 1);
        let part = exprs.subrange(0, k);
        assert(part.drop_last() =~= exprs.subrange(0, k - 1));
        lemma_first_of_its_name(schema, k - 1);
    }
}

/// The first `k` expressions that name the fields of a schema lower to
/// the references to the first `k` columns.
pub proof fn lemma_all_names_lower_to_columns(exprs: Seq<Expr>, schema: Seq<FieldSpec>, k: nat)
    requires
        names_all(exprs, schema),
        distinct_names(schema),
        k <= exprs.len(),
        exprs.len() <= usize::MAX,
    ensures
        lowered_exprs(exprs, schema, k) == Ok::<Seq<Expression>, QueryFault>(all_columns_of(k)),
    decreases k,
{
    if k > 0 {
        lemma_all_names_lower_to_columns(exprs, schema, (k - 1) as nat);
        lemma_first_of_its_name(schema, k - 1);
        assert(all_columns_of(k) =~= all_columns_of((k - 1) as nat).push(
            lowered_expr(exprs[k - 1], schema)->Ok_0,
        ));
    } else {
        assert(all_columns_of(0) =~= Seq::<Expression>::empty());
    }
}

/// A projection onto all columns keeps the schema and lowers to the
/// projection that keeps the rows: where the expressions of a projection
/// name the fields of its input, one after the other, and no two fields
/// have the same name, the projection has the schema of its input, and its
/// physical expressions are the references to the columns, in order.
pub proof fn theorem_projection_of_all_columns(exprs: Seq<Expr>, schema: Seq<FieldSpec>)
    requires
        names_all(exprs, schema),
        distinct_names(schema),
        exprs.len() <= usize::MAX,
    ensures
        fields_of(exprs, schema) == schema,
        lowered_exprs(exprs, schema, exprs.len()) == Ok::<Seq<Expression>, QueryFault>(
            all_columns_of(exprs.len()),
        ),
{
    lemma_fields_of_all_names(exprs, schema, exprs.len() as int);
    assert(exprs.subrange(0, exprs.len() as int) =~= exprs);
    lemma_all_names_lower_to_columns(exprs, schema, exprs.len());
}

} // verus!
