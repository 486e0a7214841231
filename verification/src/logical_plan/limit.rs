//! Limits on the number of rows.

use crate::logical_plan::LogicalPlan;
use crate::text::{decimal_text, integer_to_string};
use vstd::prelude::*;
use vstd::string::*;

verus! {

/// The first `limit` rows of the input.
pub struct Limit {
    pub input: Box<LogicalPlan>,
    pub limit: usize,
}

impl Limit {
    pub fn new(input: LogicalPlan, limit: usize) -> (r: Limit)
        ensures
            r == (Limit { input: Box::new(input), limit }),
    {
        Limit { input: Box::new(input), limit }
    }

    /// The text of the node.
    pub open spec fn text(&self) -> Seq<char> {
        "Limit: "@ + decimal_text(self.limit as int)
    }

    /// The text of the node.
    pub fn to_string(&self) -> (r: String)
        ensures
            r@ == self.text(),
    {
        let mut out = "Limit: ".to_owned();
        out.append(integer_to_string(self.limit as i128).as_str());
        out
    }
}

} // verus!
