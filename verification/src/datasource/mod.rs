//! Data sources: where scans read their batches.

pub mod csv_data_source;
pub mod in_memory_data_source;

use crate::datasource::csv_data_source::{schema_for, CsvDataSource};
use crate::datasource::in_memory_data_source::InMemoryDataSource;
use crate::datatypes::record_batch::{batch_views, BatchSpec, RecordBatch};
use crate::datatypes::schema::{slice_views, FieldSpec, Schema};
use crate::error::{QueryError, QueryFault};
use vstd::prelude::*;

verus! {

/// Whether a result holds the batches, or the failure, that are expected.
pub open spec fn scan_gives(r: Result<Vec<RecordBatch>, QueryError>, expected: Result<
    Seq<BatchSpec>,
    QueryFault,
>) -> bool {
    match expected {
        Ok(batches) => r is Ok && batch_views(r->Ok_0@) == batches,
        Err(fault) => r is Err && r->Err_0@ == fault,
    }
}

/// A source of record batches.
pub enum Source {
    CSV(CsvDataSource),
    InMemory(InMemoryDataSource),
}

impl Source {
    /// The schema of the source.
    pub open spec fn fields(&self) -> Seq<FieldSpec> {
        match self {
            Source::CSV(s) => s.schema@,
            Source::InMemory(s) => s.schema@,
        }
    }

    /// What a scan of the source gives for a projection.
    pub open spec fn scanned(&self, names: Seq<Seq<char>>) -> Result<Seq<BatchSpec>, QueryFault> {
        match self {
            Source::CSV(s) => s.scanned(names),
            Source::InMemory(s) => s.scanned(names),
        }
    }

    /// Whether the source reads comma-separated values, and is the one
    /// that is made of these.
    pub open spec fn reads_csv(
        &self,
        file_name: Seq<char>,
        content: Seq<u8>,
        fields: Seq<FieldSpec>,
        has_headers: bool,
        batch_size: usize,
    ) -> bool {
        match self {
            Source::CSV(c) => c.holds(file_name, content, fields, has_headers, batch_size),
            Source::InMemory(_) => false,
        }
    }

    /// The schema of the source.
    pub fn schema(&self) -> (r: Schema)
        ensures
            r@ == self.fields(),
    {
        match self {
            Source::CSV(s) => s.schema.clone(),
            Source::InMemory(s) => s.schema.clone(),
        }
    }

    /// The batches of the source, with the columns called `projection`, in
    /// that order; with all columns where `projection` is empty.
    pub fn scan(&self, projection: Vec<&str>) -> (r: Result<Vec<RecordBatch>, QueryError>)
        ensures
            scan_gives(r, self.scanned(slice_views(projection@))),
    {
        match self {
            Source::CSV(s) => s.scan(projection),
            Source::InMemory(s) => s.scan(projection),
        }
    }

    /// A source that reads the comma-separated values of `content`, the
    /// content of the file called `file_name`, in batches of at most
    /// `batch_size` rows: with the schema that is given, else with the one
    /// that the content has. A failure where the content has none.
    pub fn from_csv(
        file_name: &str,
        content: Vec<u8>,
        schema: Option<Schema>,
        has_headers: bool,
        batch_size: usize,
    ) -> (r: Result<Source, QueryError>)
        ensures
            match schema_for(schema, content@, has_headers) {
                Some(fields) => r is Ok && r->Ok_0.reads_csv(
                    file_name@,
                    content@,
                    fields,
                    has_headers,
                    batch_size,
                ),
                None => r is Err && r->Err_0@ == QueryFault::SourceIoFailure,
            },
    {
        match CsvDataSource::new(file_name, content, schema, has_headers, batch_size) {
            Ok(ds) => Ok(Source::CSV(ds)),
            Err(e) => Err(e),
        }
    }

    /// A source that holds its batches in memory.
    pub fn from_in_memory(schema: Schema, data: Vec<RecordBatch>) -> (r: Source)
        ensures
            r == Source::InMemory(InMemoryDataSource { schema, data }),
    {
        let ds = InMemoryDataSource::new(schema, data);
        Source::InMemory(ds)
    }
}

} // verus!
