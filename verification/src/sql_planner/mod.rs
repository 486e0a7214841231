//! The SQL planner: from a parsed `SELECT` to a registered data frame.

use crate::error::{QueryError, QueryFault};
use crate::execution::{table_index, ExecutionContext};
use sqlparser::ast::{Select, TableFactor};
use vstd::prelude::*;

verus! {

#[verifier::external_type_specification]
#[verifier::external_body]
pub struct ExSelect(Select);

/// The relations of the `FROM` clause of a `SELECT`, in order: for a plain
/// table the text of its name, as sqlparser prints an `ObjectName`; `None`
/// for every other relation.
pub uninterp spec fn from_relations(select: Select) -> Seq<Option<Seq<char>>>;

/// What a `SELECT` reads from, as mathematics sees it.
pub enum RelationSpec {
    Nothing,
    Table(Seq<char>),
    Other,
}

/// What a `SELECT` reads from.
pub enum Relation {
    /// There is no `FROM` clause.
    Nothing,
    /// The first relation of the `FROM` clause is a table of this name.
    Table(String),
    /// The first relation of the `FROM` clause is no plain table.
    Other,
}

impl View for Relation {
    type V = RelationSpec;

    open spec fn view(&self) -> RelationSpec {
        match self {
            Relation::Nothing => RelationSpec::Nothing,
            Relation::Table(name) => RelationSpec::Table(name@),
            Relation::Other => RelationSpec::Other,
        }
    }
}

/// The names of a run of relations.
pub open spec fn names_view(relations: Seq<Option<String>>) -> Seq<Option<Seq<char>>> {
    relations.map_values(
        |r: Option<String>|
            match r {
                Some(name) => Some(name@),
                None => None,
            },
    )
}

/// What a `SELECT` with the relations `from` reads: the first of them.
pub open spec fn first_of(from: Seq<Option<Seq<char>>>) -> RelationSpec {
    if from.len() == 0 {
        RelationSpec::Nothing
    } else {
        match from[0] {
            Some(name) => RelationSpec::Table(name),
            None => RelationSpec::Other,
        }
    }
}

/// Finds the data frames that a `SELECT` reads.
pub struct SqlPlanner;

/// The place of the table that a relation names, among the tables of a
/// context: none for a `SELECT` without `FROM`; a failure for a relation
/// that is no plain table, and for a name under which no table is
/// registered.
pub open spec fn resolved(relation: RelationSpec, context: &ExecutionContext) -> Result<
    Option<usize>,
    QueryFault,
> {
    match relation {
        RelationSpec::Nothing => Ok(None),
        RelationSpec::Other => Err(QueryFault::UnsupportedPlan("FROM"@)),
        RelationSpec::Table(name) => if table_index(context.tables@, name) < context.tables@.len() {
            Ok(Some(table_index(context.tables@, name) as usize))
        } else {
            Err(QueryFault::UnknownTable(name))
        },
    }
}

impl SqlPlanner {
    /// Reads the field `from` of sqlparser's `Select` and tells the
    /// variants of `TableFactor` apart. Believed of it: what comes back
    /// holds, for each relation of the clause and in its order, the text
    /// that `ObjectName::to_string` gives where the relation is a
    /// `TableFactor::Table`, and `None` for any other.
    #[verifier::external_body]
    fn relations(select: &Select) -> (r: Vec<Option<String>>)
        ensures
            names_view(r@) == from_relations(*select),
    {
        select.from.iter().map(|t| match &t.relation {
            TableFactor::Table { name, .. } => Some(name.to_string()),
            _ => None,
        }).collect()
    }

    /// What a `SELECT` with these relations reads: the first of them.
    pub fn first_relation(relations: Vec<Option<String>>) -> (r: Relation)
        ensures
            r@ == first_of(names_view(relations@)),
    {
        let mut relations = relations;
        if relations.len() == 0 {
            Relation::Nothing
        } else {
            match relations.swap_remove(0) {
                Some(name) => Relation::Table(name),
                None => Relation::Other,
            }
        }
    }

    /// The place, among the tables of a context, of the table that a
    /// relation names.
    pub fn resolve(relation: Relation, context: &ExecutionContext) -> (r: Result<
        Option<usize>,
        QueryError,
    >)
        ensures
            match resolved(relation@, context) {
                Ok(place) => r == Ok::<Option<usize>, QueryError>(place),
                Err(e) => r is Err && r->Err_0@ == e,
            },
            r matches Ok(Some(i)) ==> i < context.tables@.len(),
    {
        match relation {
            Relation::Nothing => Ok(None),
            Relation::Other => Err(QueryError::UnsupportedPlan("FROM".to_owned())),
            Relation::Table(name) => match context.find_table(name.as_str()) {
                Some(i) => Ok(Some(i)),
                None => Err(QueryError::UnknownTable(name)),
            },
        }
    }

    /// The place, among the tables of a context, of the table that a
    /// `SELECT` reads first: the first place of a table registered under
    /// the name of the first relation of its `FROM` clause. None for a
    /// `SELECT` without `FROM`; `UnsupportedPlan` where the first relation
    /// is no plain table, `UnknownTable` where no table has its name.
    pub fn create_data_frame(select: &Select, context: &ExecutionContext) -> (r: Result<
        Option<usize>,
        QueryError,
    >)
        ensures
            match resolved(first_of(from_relations(*select)), context) {
                Ok(place) => r == Ok::<Option<usize>, QueryError>(place),
                Err(e) => r is Err && r->Err_0@ == e,
            },
            r matches Ok(Some(i)) ==> i < context.tables@.len(),
    {
        let relation = Self::first_relation(Self::relations(select));
        Self::resolve(relation, context)
    }
}

} // verus!
