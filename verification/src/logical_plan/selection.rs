//! Selections: filters of rows.

use crate::logical_plan::expressions::Expr;
use crate::logical_plan::LogicalPlan;
use vstd::prelude::*;
use vstd::string::*;

verus! {

/// The rows of the input for which the expression is true.
pub struct Selection {
    pub input: Box<LogicalPlan>,
    pub expr: Expr,
}

impl Selection {
    pub fn new(input: LogicalPlan, expr: Expr) -> (r: Selection)
        ensures
            r == (Selection { input: Box::new(input), expr }),
    {
        Selection { input: Box::new(input), expr }
    }

    /// The text of the node.
    pub open spec fn text(&self) -> Seq<char> {
        "Selection: "@ + self.expr.text()
    }

    /// The text of the node.
    pub fn to_string(&self) -> (r: String)
        ensures
            r@ == self.text(),
    {
        let mut out = "Selection: ".to_owned();
        out.append(self.expr.to_string().as_str());
        out
    }
}

} // verus!
