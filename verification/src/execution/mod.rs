//! The execution context: settings, registered tables, and the way from a
//! data frame to its batches.

use crate::datasource::csv_data_source::schema_for;
use crate::datasource::{scan_gives, Source};
use crate::datatypes::record_batch::RecordBatch;
use crate::datatypes::schema::Schema;
use crate::error::{QueryError, QueryFault};
use crate::datasource::in_memory_data_source::InMemoryDataSource;
use crate::logical_plan::data_frame::{scan_all, scans_all, scans_csv, DataFrame, DF};
use crate::logical_plan::LogicalPlan;
use crate::optimizer::projection_push_down_rule::{push_down_fault, pushes_down};
use crate::optimizer::Optimizer;
use crate::physical_plan::PhysicalPlan;
use crate::query_planner::{lowering_fault, lowers, QueryPlanner};
use crate::text::{bytes_of, parse_integer, parse_integer_spec, text_eq};
use vstd::prelude::*;
use vstd::string::*;

verus! {

/// The batch size of csv sources where the settings give none.
pub const DEFAULT_BATCH_SIZE: usize = 1024;

/// A registered table.
pub struct Table {
    pub name: String,
    pub df: DataFrame,
}

/// Settings, a registry of named data frames, and the batch size of csv
/// sources.
pub struct ExecutionContext {
    pub settings: Vec<(String, String)>,
    pub tables: Vec<Table>,
    pub batch_size: usize,
}

/// The value of the last setting called `key`.
pub open spec fn setting(settings: Seq<(String, String)>, key: Seq<char>) -> Option<Seq<char>>
    decreases settings.len(),
{
    if settings.len() == 0 {
        None
    } else if settings.last().0@ == key {
        Some(settings.last().1@)
    } else {
        setting(settings.drop_last(), key)
    }
}

/// The batch size that the settings give: the number that the setting
/// `csv.batch_size` writes, where it writes one that a `usize` holds; else
/// `DEFAULT_BATCH_SIZE`.
pub open spec fn batch_size_of(settings: Seq<(String, String)>) -> usize {
    match setting(settings, "csv.batch_size"@) {
        Some(text) => match parse_integer_spec(bytes_of(text), 0, usize::MAX as int) {
            Some(n) => n as usize,
            None => DEFAULT_BATCH_SIZE,
        },
        None => DEFAULT_BATCH_SIZE,
    }
}

/// The place of the table called `name`; the number of tables where none
/// is called so.
pub open spec fn table_index(tables: Seq<Table>, name: Seq<char>) -> int
    decreases tables.len(),
{
    if tables.len() == 0 || tables[0].name@ == name {
        0
    } else {
        1 + table_index(tables.drop_first(), name)
    }
}

/// A place before which no table is called `name`, and which either holds
/// such a table or is the end, is `table_index`.
pub proof fn lemma_table_index_is(tables: Seq<Table>, name: Seq<char>, j: int)
    requires
        0 <= j <= tables.len(),
        forall|k: int| 0 <= k < j ==> (#[trigger] tables[k]).name@ != name,
        j < tables.len() ==> tables[j].name@ == name,
    ensures
        table_index(tables, name) == j,
    decreases tables.len(),
{
    if tables.len() > 0 && tables[0].name@ != name {
        let rest = tables.drop_first();
        lemma_table_index_is(rest, name, j - 1);
    }
}

/// Whether `after` is what a registry holds once a table is registered
/// under `name`: the table takes the place of the one called so, or a new
/// place at the end; every other table stays.
pub open spec fn registered(before: Seq<Table>, name: Seq<char>, after: Seq<Table>) -> bool {
    let i = table_index(before, name);
    &&& after.len() == (if i < before.len() {
        before.len()
    } else {
        before.len() + 1
    })
    &&& after[i].name@ == name
    &&& forall|k: int| 0 <= k < before.len() && k != i ==> #[trigger] after[k] == before[k]
}

/// Whether `r` is the result of running a logical plan: the failure of the
/// optimizer, where it is asked for; else that of the planner; else what
/// the physical plan gives.
pub open spec fn runs(plan: LogicalPlan, optimize: bool, r: Result<
    Vec<RecordBatch>,
    QueryError,
>) -> bool {
    if optimize && push_down_fault(plan) is Some {
        r is Err && r->Err_0@ == push_down_fault(plan)->Some_0
    } else {
        exists|logical: LogicalPlan|
            (if optimize {
                pushes_down(plan, Set::empty(), logical)
            } else {
                logical == plan
            }) && #[trigger] executes(logical, r)
    }
}

/// Whether `r` is the result of running a logical plan as it is: the
/// failure of the planner, else what the physical plan gives.
pub open spec fn executes(plan: LogicalPlan, r: Result<Vec<RecordBatch>, QueryError>) -> bool {
    match lowering_fault(plan) {
        Some(e) => r is Err && r->Err_0@ == e,
        None => exists|physical: PhysicalPlan|
            lowers(plan, physical) && #[trigger] scan_gives(r, physical.executed()),
    }
}

impl ExecutionContext {
    /// A context with the given settings and no tables.
    pub fn new(settings: Vec<(String, String)>) -> (r: ExecutionContext)
        ensures
            r.settings == settings,
            r.tables@.len() == 0,
            r.batch_size == batch_size_of(settings@),
    {
        let mut batch_size: usize = DEFAULT_BATCH_SIZE;
        let mut i: usize = 0;
        while i < settings.len()
            invariant
                i <= settings.len(),
                batch_size == batch_size_of(settings@.subrange(0, i as int)),
            decreases settings.len() - i,
        {
            proof {
                let t = settings@.subrange(0, i + 1);
                assert(t.drop_last() =~= settings@.subrange(0, i as int));
            }
            if text_eq(settings[i].0.as_str(), "csv.batch_size") {
                batch_size = match parse_integer(settings[i].1.as_str(), 0, usize::MAX as i128) {
                    Some(n) => n as usize,
                    None => DEFAULT_BATCH_SIZE,
                };
            }
            i = i + 1;
        }
        assert(settings@.subrange(0, i as int) =~= settings@);
        ExecutionContext { settings, tables: Vec::new(), batch_size }
    }

    /// A data frame over the comma-separated values of `content`, the
    /// content of the file called `file_name`, read in batches of the size
    /// of the context.
    pub fn csv(&self, file_name: &str, content: Vec<u8>, has_headers: bool) -> (r: Result<
        DataFrame,
        QueryError,
    >)
        ensures
            match schema_for(None, content@, has_headers) {
                Some(fields) => r is Ok && r->Ok_0.plan.fields() == fields && scans_csv(
                    r->Ok_0.plan,
                    file_name@,
                    content@,
                    fields,
                    has_headers,
                    self.batch_size,
                ),
                None => r is Err && r->Err_0@ == QueryFault::SourceIoFailure,
            },
    {
        DF::from_csv(file_name, content, None, has_headers, self.batch_size)
    }

    /// A data frame over batches in memory: a scan of all their fields,
    /// under the path `in_memory`.
    pub fn in_memory(&self, schema: Schema, data: Vec<RecordBatch>) -> (r: DataFrame)
        ensures
            scans_all(
                r.plan,
                "in_memory"@,
                Source::InMemory(InMemoryDataSource { schema, data }),
            ),
            r.plan.fields() == schema@,
    {
        DF::from_in_memory(schema, data)
    }

    /// The place of the table called `name`.
    pub fn find_table(&self, name: &str) -> (r: Option<usize>)
        ensures
            match r {
                Some(i) => i < self.tables@.len() && i == table_index(self.tables@, name@),
                None => table_index(self.tables@, name@) == self.tables@.len(),
            },
    {
        let mut i: usize = 0;
        while i < self.tables.len()
            invariant
                i <= self.tables.len(),
                forall|k: int| 0 <= k < i ==> (#[trigger] self.tables@[k]).name@ != name@,
            decreases self.tables.len() - i,
        {
            if text_eq(self.tables[i].name.as_str(), name) {
                proof {
                    lemma_table_index_is(self.tables@, name@, i as int);
                }
                return Some(i);
            }
            i = i + 1;
        }
        proof {
            lemma_table_index_is(self.tables@, name@, i as int);
        }
        None
    }

    /// Registers a data frame under a name. A table of that name is
    /// replaced.
    pub fn register(&mut self, table_name: &str, df: DataFrame)
        ensures
            final(self).settings == old(self).settings,
            final(self).batch_size == old(self).batch_size,
            registered(old(self).tables@, table_name@, final(self).tables@),
            final(self).tables@[table_index(old(self).tables@, table_name@)].df == df,
    {
        let table = Table { name: table_name.to_owned(), df };
        match self.find_table(table_name) {
            Some(i) => {
                self.tables.set(i, table);
            },
            None => {
                self.tables.push(table);
            },
        }
    }

    /// Registers a data source under a name: a scan of all its fields,
    /// with the name for its path.
    pub fn register_data_source(&mut self, table_name: &str, data_source: Source)
        ensures
            final(self).settings == old(self).settings,
            final(self).batch_size == old(self).batch_size,
            registered(old(self).tables@, table_name@, final(self).tables@),
            scans_all(
                final(self).tables@[table_index(old(self).tables@, table_name@)].df.plan,
                table_name@,
                data_source,
            ),
            final(self).tables@[table_index(old(self).tables@, table_name@)].df.plan.fields()
                == data_source.fields(),
    {
        let df = scan_all(table_name.to_owned(), data_source);
        self.register(table_name, df)
    }

    /// Registers the content of a csv file under a name: a scan of all its
    /// fields, read in batches of the size of the context. Where the
    /// content cannot be read, nothing is registered.
    pub fn register_csv(
        &mut self,
        table_name: &str,
        file_name: &str,
        content: Vec<u8>,
        has_headers: bool,
    ) -> (r: Result<(), QueryError>)
        ensures
            final(self).settings == old(self).settings,
            final(self).batch_size == old(self).batch_size,
            match schema_for(None, content@, has_headers) {
                Some(fields) => r is Ok && registered(
                    old(self).tables@,
                    table_name@,
                    final(self).tables@,
                ) && final(self).tables@[table_index(
                    old(self).tables@,
                    table_name@,
                )].df.plan.fields() == fields && scans_csv(
                    final(self).tables@[table_index(old(self).tables@, table_name@)].df.plan,
                    file_name@,
                    content@,
                    fields,
                    has_headers,
                    old(self).batch_size,
                ),
                None => r is Err && r->Err_0@ == QueryFault::SourceIoFailure && final(self).tables
                    == old(self).tables,
            },
    {
        match self.csv(file_name, content, has_headers) {
            Ok(df) => {
                self.register(table_name, df);
                Ok(())
            },
            Err(e) => Err(e),
        }
    }

    /// Runs the logical plan of a data frame, optimized first where
    /// `optimize` is set.
    pub fn execute(&self, df: DataFrame, optimize: bool) -> (r: Result<
        Vec<RecordBatch>,
        QueryError,
    >)
        ensures
            runs(df.plan, optimize, r),
    {
        let plan = if optimize {
            match Optimizer::optimize(df.into_logical_plan()) {
                Ok(p) => p,
                Err(e) => {
                    return Err(e);
                },
            }
        } else {
            df.into_logical_plan()
        };
        let r = self.execute_logical_plan(plan);
        r
    }

    /// Runs a logical plan: lowers it to a physical plan and runs that.
    pub fn execute_logical_plan(&self, plan: LogicalPlan) -> (r: Result<
        Vec<RecordBatch>,
        QueryError,
    >)
        ensures
            executes(plan, r),
    {
        let physical_plan = match QueryPlanner::create_physical_plan(plan) {
            Ok(p) => p,
            Err(e) => {
                return Err(e);
            },
        };
        let r = physical_plan.execute();
        r
    }
}

} // verus!
