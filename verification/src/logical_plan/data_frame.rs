//! Data frames: a fluent way to compose logical plans.

use crate::datasource::csv_data_source::schema_for;
use crate::datasource::in_memory_data_source::InMemoryDataSource;
use crate::datasource::Source;
use crate::datatypes::record_batch::RecordBatch;
use crate::datatypes::schema::{FieldSpec, Schema};
use crate::error::{QueryError, QueryFault};
use crate::logical_plan::aggregate::{aggregates_of, Aggregate};
use crate::logical_plan::expressions::Expr;
use crate::logical_plan::projection::Projection;
use crate::logical_plan::scan::Scan;
use crate::logical_plan::selection::Selection;
use crate::logical_plan::LogicalPlan;
use vstd::prelude::*;
use vstd::string::*;

verus! {

/// A logical plan under construction.
pub struct DataFrame {
    pub plan: LogicalPlan,
}

impl DataFrame {
    /// The columns that the expressions derive from this data frame.
    pub fn project(self, expr: Vec<Expr>) -> (r: DataFrame)
        ensures
            r.plan == LogicalPlan::Projection(Projection { input: Box::new(self.plan), expr }),
    {
        DataFrame { plan: LogicalPlan::Projection(Projection::new(self.plan, expr)) }
    }

    /// The rows of this data frame for which the expression is true.
    pub fn filter(self, expr: Expr) -> (r: DataFrame)
        ensures
            r.plan == LogicalPlan::Selection(Selection { input: Box::new(self.plan), expr }),
    {
        DataFrame { plan: LogicalPlan::Selection(Selection::new(self.plan, expr)) }
    }

    /// The aggregates over the groups of rows of this data frame. Of
    /// `aggregate_expr` only the aggregates are kept.
    pub fn aggregate(self, group_expr: Vec<Expr>, aggregate_expr: Vec<Expr>) -> (r: DataFrame)
        ensures
            r.plan matches LogicalPlan::Aggregate(a) && *a.input == self.plan && a.group_expr
                == group_expr && a.aggregate_expr@ == aggregates_of(aggregate_expr@),
    {
        DataFrame {
            plan: LogicalPlan::Aggregate(Aggregate::new(self.plan, group_expr, aggregate_expr)),
        }
    }

    /// The schema of the data that this data frame will give.
    pub fn schema(&self) -> (r: Schema)
        ensures
            r@ == self.plan.fields(),
    {
        self.plan.schema()
    }

    /// The logical plan.
    pub fn logical_plan(&self) -> (r: &LogicalPlan)
        ensures
            *r == self.plan,
    {
        &self.plan
    }

    /// The logical plan, by value.
    pub fn into_logical_plan(self) -> (r: LogicalPlan)
        ensures
            r == self.plan,
    {
        self.plan
    }
}

/// Whether a plan is the scan of all the fields of `source`, under the
/// path `path`.
pub open spec fn scans_all(plan: LogicalPlan, path: Seq<char>, source: Source) -> bool {
    plan matches LogicalPlan::Scan(s) && s.wf() && s.path@ == path && s.datasource == source
        && s.projection@.len() == 0
}

/// Whether a plan is the scan of all the fields of the comma-separated
/// values of `content`, the content of the file called `file_name`, read
/// with the schema `fields` in batches of at most `batch_size` rows.
pub open spec fn scans_csv(
    plan: LogicalPlan,
    file_name: Seq<char>,
    content: Seq<u8>,
    fields: Seq<FieldSpec>,
    has_headers: bool,
    batch_size: usize,
) -> bool {
    plan matches LogicalPlan::Scan(s) && s.wf() && s.path@ == file_name && s.projection@.len()
        == 0 && s.datasource.reads_csv(file_name, content, fields, has_headers, batch_size)
}

/// Makes data frames over the supported data sources.
pub struct DF {}

impl DF {
    /// A data frame that scans all the fields of the comma-separated
    /// values of `content`, the content of the file called `file_name`.
    pub fn from_csv(
        file_name: &str,
        content: Vec<u8>,
        schema: Option<Schema>,
        has_headers: bool,
        batch_size: usize,
    ) -> (r: Result<DataFrame, QueryError>)
        ensures
            match schema_for(schema, content@, has_headers) {
                Some(fields) => r is Ok && r->Ok_0.plan.fields() == fields && scans_csv(
                    r->Ok_0.plan,
                    file_name@,
                    content@,
                    fields,
                    has_headers,
                    batch_size,
                ),
                None => r is Err && r->Err_0@ == QueryFault::SourceIoFailure,
            },
    {
        let source = match Source::from_csv(file_name, content, schema, has_headers, batch_size) {
            Ok(s) => s,
            Err(e) => {
                return Err(e);
            },
        };
        Ok(scan_all(file_name.to_owned(), source))
    }

    /// A data frame that scans all the fields of batches in memory, under
    /// the path `in_memory`.
    pub fn from_in_memory(schema: Schema, data: Vec<RecordBatch>) -> (r: DataFrame)
        ensures
            scans_all(
                r.plan,
                "in_memory"@,
                Source::InMemory(InMemoryDataSource { schema, data }),
            ),
            r.plan.fields() == schema@,
    {
        scan_all("in_memory".to_owned(), Source::from_in_memory(schema, data))
    }
}

/// The data frame that scans all fields of a source.
pub fn scan_all(path: String, source: Source) -> (r: DataFrame)
    ensures
        scans_all(r.plan, path@, source),
        r.plan matches LogicalPlan::Scan(s) && s.path == path,
        r.plan.fields() == source.fields(),
{
    let projection: Vec<String> = Vec::new();
    let schema = source.schema();
    DataFrame { plan: LogicalPlan::Scan(Scan { path, datasource: source, projection, schema }) }
}

} // verus!
