//! Logical expressions: what a plan computes, before it is known how.

pub mod aggr_expr;
pub mod binary_expr;
pub mod literal_expr;
pub mod math_expr;
pub mod unary_expr;

use crate::datatypes::arrow_types::ArrowType;
use crate::datatypes::schema::{find_field, Field, FieldSpec, Schema};
use crate::error::{QueryError, QueryFault};
use crate::logical_plan::expressions::aggr_expr::AggrExpr;
use crate::logical_plan::expressions::binary_expr::BinaryExpr;
use crate::logical_plan::expressions::literal_expr::LiteralExpr;
use crate::logical_plan::expressions::math_expr::MathExpr;
use crate::logical_plan::expressions::unary_expr::UnaryExpr;
use crate::logical_plan::LogicalPlan;
use crate::text::{decimal_text, integer_to_string, join, joined, views};
use vstd::prelude::*;
use vstd::string::*;

verus! {

/// A logical expression.
pub enum Expr {
    Column(Column),
    ColumnIndex(ColumnIndex),
    Literal(LiteralExpr),
    Cast(CastExpr),
    Binary(BinaryExpr),
    Unary(UnaryExpr),
    Math(MathExpr),
    Aggr(AggrExpr),
    Alias(Alias),
}

/// A reference to a column by name.
pub struct Column {
    pub name: String,
}

/// A reference to a column by index.
pub struct ColumnIndex {
    pub i: usize,
}

/// A cast of an expression to a type.
pub struct CastExpr {
    pub expr: Box<Expr>,
    pub data_type: ArrowType,
}

/// An expression under another name.
pub struct Alias {
    pub expr: Box<Expr>,
    pub alias: String,
}

/// The column called `name`.
pub fn col(name: &str) -> (e: Expr)
    ensures
        e matches Expr::Column(c) && c.name@ == name@,
{
    Expr::Column(Column { name: name.to_owned() })
}

/// The column at index `i`.
pub fn col_index(i: usize) -> (e: Expr)
    ensures
        e == Expr::ColumnIndex(ColumnIndex { i }),
{
    Expr::ColumnIndex(ColumnIndex { i })
}

/// `CAST(expr AS data_type)`.
pub fn cast(expr: Expr, data_type: ArrowType) -> (e: Expr)
    ensures
        e == Expr::Cast(CastExpr { expr: Box::new(expr), data_type }),
{
    Expr::Cast(CastExpr { expr: Box::new(expr), data_type })
}

/// `expr AS alias`.
pub fn alias(expr: Expr, name: &str) -> (e: Expr)
    ensures
        e matches Expr::Alias(a) && *a.expr == expr && a.alias@ == name@,
{
    Expr::Alias(Alias { expr: Box::new(expr), alias: name.to_owned() })
}

/// Whether a result holds the field, or the failure, that is expected.
pub open spec fn field_gives(r: Result<Field, QueryError>, expected: Result<
    FieldSpec,
    QueryFault,
>) -> bool {
    match expected {
        Ok(f) => r is Ok && r->Ok_0@ == f,
        Err(e) => r is Err && r->Err_0@ == e,
    }
}

impl Expr {
    /// The canonical text of the expression.
    pub open spec fn text(&self) -> Seq<char>
        decreases self,
    {
        match self {
            Expr::Column(c) => c.name@,
            Expr::ColumnIndex(c) => decimal_text(c.i as int),
            Expr::Literal(LiteralExpr::LiteralString(l)) => l.str@,
            Expr::Literal(LiteralExpr::LiteralLong(l)) => decimal_text(l.i as int),
            Expr::Literal(LiteralExpr::LiteralFloat(l)) => l.text@,
            Expr::Literal(LiteralExpr::LiteralDouble(l)) => l.text@,
            Expr::Cast(c) => "CAST("@ + c.expr.text() + " AS "@ + c.data_type.spec_name() + ")"@,
            Expr::Binary(b) => b.l.text() + " "@ + b.op.spec_sign() + " "@ + b.r.text(),
            Expr::Unary(UnaryExpr::Not(n)) => "NOT "@ + n.expr.text(),
            Expr::Math(m) => m.l.text() + " "@ + m.op.spec_sign() + " "@ + m.r.text(),
            Expr::Aggr(a) => a.kind.spec_opening() + a.expr.text() + ")"@,
            Expr::Alias(a) => a.expr.text() + " AS "@ + a.alias@,
        }
    }

    /// The field that the expression gives against an input of the schema
    /// `schema`: its name and its type; a failure where it refers to a
    /// column that the input does not have.
    pub open spec fn field(&self, schema: Seq<FieldSpec>) -> Result<FieldSpec, QueryFault>
        decreases self,
    {
        match self {
            Expr::Column(c) => match find_field(schema, c.name@) {
                Some(f) => Ok(f),
                None => Err(QueryFault::UnknownColumn(c.name@)),
            },
            Expr::ColumnIndex(c) => if c.i < schema.len() {
                Ok(schema[c.i as int])
            } else {
                Err(QueryFault::IndexOutOfRange(c.i))
            },
            Expr::Literal(LiteralExpr::LiteralString(l)) => Ok(
                FieldSpec { name: l.str@, data_type: ArrowType::StringType },
            ),
            Expr::Literal(LiteralExpr::LiteralLong(l)) => Ok(
                FieldSpec { name: decimal_text(l.i as int), data_type: ArrowType::Int64Type },
            ),
            Expr::Literal(LiteralExpr::LiteralFloat(l)) => Ok(
                FieldSpec { name: l.text@, data_type: ArrowType::FloatType },
            ),
            Expr::Literal(LiteralExpr::LiteralDouble(l)) => Ok(
                FieldSpec { name: l.text@, data_type: ArrowType::DoubleType },
            ),
            Expr::Cast(c) => match c.expr.field(schema) {
                Ok(f) => Ok(FieldSpec { name: f.name, data_type: c.data_type }),
                Err(e) => Err(e),
            },
            Expr::Binary(b) => Ok(
                FieldSpec { name: b.op.spec_name(), data_type: ArrowType::BooleanType },
            ),
            Expr::Unary(UnaryExpr::Not(_)) => Ok(
                FieldSpec { name: "NOT"@, data_type: ArrowType::BooleanType },
            ),
            Expr::Math(m) => match m.l.field(schema) {
                Ok(f) => Ok(FieldSpec { name: m.op.spec_name(), data_type: f.data_type }),
                Err(e) => Err(e),
            },
            Expr::Aggr(a) => if a.kind.counts() {
                Ok(FieldSpec { name: a.kind.spec_name(), data_type: ArrowType::Int32Type })
            } else {
                match a.expr.field(schema) {
                    Ok(f) => Ok(FieldSpec { name: a.kind.spec_name(), data_type: f.data_type }),
                    Err(e) => Err(e),
                }
            },
            Expr::Alias(a) => match a.expr.field(schema) {
                Ok(f) => Ok(FieldSpec { name: a.alias@, data_type: f.data_type }),
                Err(e) => Err(e),
            },
        }
    }

    /// The canonical text of the expression.
    pub fn to_string(&self) -> (r: String)
        ensures
            r@ == self.text(),
        decreases self,
    {
        match self {
            Expr::Column(c) => c.name.clone(),
            Expr::ColumnIndex(c) => integer_to_string(c.i as i128),
            Expr::Literal(LiteralExpr::LiteralString(l)) => l.str.clone(),
            Expr::Literal(LiteralExpr::LiteralLong(l)) => integer_to_string(l.i as i128),
            Expr::Literal(LiteralExpr::LiteralFloat(l)) => l.text.clone(),
            Expr::Literal(LiteralExpr::LiteralDouble(l)) => l.text.clone(),
            Expr::Cast(c) => {
                let mut out = "CAST(".to_owned();
                out.append(c.expr.to_string().as_str());
                out.append(" AS ");
                out.append(c.data_type.name());
                out.append(")");
                out
            },
            Expr::Binary(b) => {
                let mut out = b.l.to_string();
                out.append(" ");
                out.append(b.op.sign());
                out.append(" ");
                out.append(b.r.to_string().as_str());
                out
            },
            Expr::Unary(UnaryExpr::Not(n)) => {
                let mut out = "NOT ".to_owned();
                out.append(n.expr.to_string().as_str());
                out
            },
            Expr::Math(m) => {
                let mut out = m.l.to_string();
                out.append(" ");
                out.append(m.op.sign());
                out.append(" ");
                out.append(m.r.to_string().as_str());
                out
            },
            Expr::Aggr(a) => {
                let mut out = a.kind.opening().to_owned();
                out.append(a.expr.to_string().as_str());
                out.append(")");
                out
            },
            Expr::Alias(a) => {
                let mut out = a.expr.to_string();
                out.append(" AS ");
                out.append(a.alias.as_str());
                out
            },
        }
    }

    /// The field that the expression gives against an input of the schema
    /// `schema`.
    pub fn to_field_in(&self, schema: &Schema) -> (r: Result<Field, QueryError>)
        ensures
            field_gives(r, self.field(schema@)),
        decreases self,
    {
        match self {
            Expr::Column(c) => match schema.index_of(c.name.as_str()) {
                Some(i) => {
                    Ok(schema.fields[i].clone())
                },
                None => Err(QueryError::UnknownColumn(c.name.clone())),
            },
            Expr::ColumnIndex(c) => if c.i < schema.fields.len() {
                Ok(schema.fields[c.i].clone())
            } else {
                Err(QueryError::IndexOutOfRange(c.i))
            },
            Expr::Literal(LiteralExpr::LiteralString(l)) => Ok(
                Field { name: l.str.clone(), data_type: ArrowType::StringType },
            ),
            Expr::Literal(LiteralExpr::LiteralLong(l)) => Ok(
                Field { name: integer_to_string(l.i as i128), data_type: ArrowType::Int64Type },
            ),
            Expr::Literal(LiteralExpr::LiteralFloat(l)) => Ok(
                Field { name: l.text.clone(), data_type: ArrowType::FloatType },
            ),
            Expr::Literal(LiteralExpr::LiteralDouble(l)) => Ok(
                Field { name: l.text.clone(), data_type: ArrowType::DoubleType },
            ),
            Expr::Cast(c) => match c.expr.to_field_in(schema) {
                Ok(f) => Ok(Field { name: f.name, data_type: c.data_type }),
                Err(e) => Err(e),
            },
            Expr::Binary(b) => Ok(
                Field { name: b.op.name().to_owned(), data_type: ArrowType::BooleanType },
            ),
            Expr::Unary(UnaryExpr::Not(_)) => Ok(
                Field { name: "NOT".to_owned(), data_type: ArrowType::BooleanType },
            ),
            Expr::Math(m) => match m.l.to_field_in(schema) {
                Ok(f) => Ok(Field { name: m.op.name().to_owned(), data_type: f.data_type }),
                Err(e) => Err(e),
            },
            Expr::Aggr(a) => if a.kind.is_count() {
                Ok(Field { name: a.kind.name().to_owned(), data_type: ArrowType::Int32Type })
            } else {
                match a.expr.to_field_in(schema) {
                    Ok(f) => Ok(Field { name: a.kind.name().to_owned(), data_type: f.data_type }),
                    Err(e) => Err(e),
                }
            },
            Expr::Alias(a) => match a.expr.to_field_in(schema) {
                Ok(f) => Ok(Field { name: a.alias.clone(), data_type: f.data_type }),
                Err(e) => Err(e),
            },
        }
    }

    /// The field that the expression gives against the plan `input`.
    pub fn to_field(&self, input: &LogicalPlan) -> (r: Result<Field, QueryError>)
        ensures
            field_gives(r, self.field(input.fields())),
    {
        let schema = input.schema();
        self.to_field_in(&schema)
    }

    /// `self AS alias`.
    pub fn alias(self, name: &str) -> (e: Expr)
        ensures
            e matches Expr::Alias(a) && *a.expr == self && a.alias@ == name@,
    {
        Expr::Alias(Alias { expr: Box::new(self), alias: name.to_owned() })
    }
}

/// The texts of a run of expressions.
pub open spec fn texts(exprs: Seq<Expr>) -> Seq<Seq<char>> {
    exprs.map_values(|e: Expr| e.text())
}

/// The texts of a list of expressions, with a comma and a space between
/// them.
pub fn list_to_string(exprs: &Vec<Expr>) -> (r: String)
    ensures
        r@ == joined(texts(exprs@), ", "@),
{
    let mut parts: Vec<String> = Vec::new();
    let mut i: usize = 0;
    while i < exprs.len()
        invariant
            i <= exprs.len(),
            parts@.len() == i,
            forall|k: int| 0 <= k < i ==> (#[trigger] parts@[k])@ == exprs@[k].text(),
        decreases exprs.len() - i,
    {
        parts.push(exprs[i].to_string());
        i = i + 1;
    }
    assert(views(parts@) =~= texts(exprs@));
    join(&parts, ", ")
}

/// The fields that a run of expressions gives against a schema: those of
/// the expressions that give one, in order.
pub open spec fn fields_of(exprs: Seq<Expr>, schema: Seq<FieldSpec>) -> Seq<FieldSpec>
    decreases exprs.len(),
{
    if exprs.len() == 0 {
        Seq::empty()
    } else {
        match exprs.last().field(schema) {
            Ok(f) => fields_of(exprs.drop_last(), schema).push(f),
            Err(_) => fields_of(exprs.drop_last(), schema),
        }
    }
}

/// Appends to `fields` the fields that the expressions give against a
/// schema.
pub fn push_fields(fields: &mut Vec<Field>, exprs: &Vec<Expr>, schema: &Schema)
    ensures
        final(fields)@.map_values(|f: Field| f@) == old(fields)@.map_values(|f: Field| f@)
            + fields_of(exprs@, schema@),
{
    let ghost before = fields@.map_values(|f: Field| f@);
    let mut i: usize = 0;
    while i < exprs.len()
        invariant
            i <= exprs.len(),
            fields@.map_values(|f: Field| f@) == before + fields_of(
                exprs@.subrange(0, i as int),
                schema@,
            ),
        decreases exprs.len() - i,
    {
        proof {
            let t = exprs@.subrange(0, i + 1);
            assert(t.drop_last() =~= exprs@.subrange(0, i as int));
        }
        let ghost now = fields@.map_values(|f: Field| f@);
        match exprs[i].to_field_in(schema) {
            Ok(f) => {
                fields.push(f);
                assert(fields@.map_values(|f: Field| f@) =~= now.push(f@));
            },
            Err(_) => {},
        }
        i = i + 1;
    }
    assert(exprs@.subrange(0, i as int) =~= exprs@);
}

} // verus!
