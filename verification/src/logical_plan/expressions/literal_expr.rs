//! Literal values.

use crate::logical_plan::expressions::Expr;
use vstd::prelude::*;

verus! {

/// A literal value.
pub enum LiteralExpr {
    LiteralString(LiteralString),
    LiteralLong(LiteralLong),
    LiteralFloat(LiteralFloat),
    LiteralDouble(LiteralDouble),
}

/// A literal text.
pub struct LiteralString {
    pub str: String,
}

/// A literal whole number.
pub struct LiteralLong {
    pub i: i64,
}

/// A literal single-precision number, held as the text that prints it. A
/// plan prints and types it; it has no physical form.
pub struct LiteralFloat {
    pub text: String,
}

/// A literal double-precision number, held as the text that prints it. A
/// plan prints and types it; it has no physical form.
pub struct LiteralDouble {
    pub text: String,
}

/// The literal text `value`.
pub fn lit_str(value: &str) -> (r: Expr)
    ensures
        r matches Expr::Literal(LiteralExpr::LiteralString(l)) && l.str@ == value@,
{
    Expr::Literal(LiteralExpr::LiteralString(LiteralString { str: value.to_owned() }))
}

/// The literal number `value`.
pub fn lit_long(value: i64) -> (r: Expr)
    ensures
        r == Expr::Literal(LiteralExpr::LiteralLong(LiteralLong { i: value })),
{
    Expr::Literal(LiteralExpr::LiteralLong(LiteralLong { i: value }))
}

/// The literal single-precision number that prints as `printed`.
pub fn lit_float(printed: &str) -> (r: Expr)
    ensures
        r matches Expr::Literal(LiteralExpr::LiteralFloat(l)) && l.text@ == printed@,
{
    Expr::Literal(LiteralExpr::LiteralFloat(LiteralFloat { text: printed.to_owned() }))
}

/// The literal double-precision number that prints as `printed`.
pub fn lit_double(printed: &str) -> (r: Expr)
    ensures
        r matches Expr::Literal(LiteralExpr::LiteralDouble(l)) && l.text@ == printed@,
{
    Expr::Literal(LiteralExpr::LiteralDouble(LiteralDouble { text: printed.to_owned() }))
}

} // verus!
