//! Projections: the columns that a plan derives from its input.

use crate::logical_plan::expressions::{list_to_string, texts, Expr};
use crate::logical_plan::LogicalPlan;
use crate::text::joined;
use vstd::prelude::*;
use vstd::string::*;

verus! {

/// For each row of the input, the values of the expressions.
pub struct Projection {
    pub input: Box<LogicalPlan>,
    pub expr: Vec<Expr>,
}

impl Projection {
    pub fn new(input: LogicalPlan, expr: Vec<Expr>) -> (r: Projection)
        ensures
            r == (Projection { input: Box::new(input), expr }),
    {
        Projection { input: Box::new(input), expr }
    }

    /// The text of the node.
    pub open spec fn text(&self) -> Seq<char> {
        "Projection: "@ + joined(texts(self.expr@), ", "@)
    }

    /// The text of the node.
    pub fn to_string(&self) -> (r: String)
        ensures
            r@ == self.text(),
    {
        let mut out = "Projection: ".to_owned();
        out.append(list_to_string(&self.expr).as_str());
        out
    }
}

} // verus!
