//! The scan operator.

use crate::datasource::{scan_gives, Source};
use crate::datatypes::record_batch::{BatchSpec, RecordBatch};
use crate::datatypes::schema::{all_known, is_first_unknown, Schema};
use crate::error::{QueryError, QueryFault};
use crate::logical_plan::scan::{as_strs, scan_fields};
use crate::text::views;
use vstd::prelude::*;

verus! {

/// Reads the batches of a data source, with the columns of a projection.
pub struct ScanExec {
    pub ds: Source,
    pub projection: Vec<String>,
}

impl ScanExec {
    /// What the operator gives: what the source gives for the projection.
    pub open spec fn executed(&self) -> Result<Seq<BatchSpec>, QueryFault> {
        self.ds.scanned(views(self.projection@))
    }

    /// The schema of the batches: that of the source where the projection
    /// is empty, else the fields that the projection selects. Fails with
    /// the first name that the source does not have.
    pub fn schema(&self) -> (r: Result<Schema, QueryError>)
        ensures
            all_known(self.ds.fields(), views(self.projection@)) ==> r is Ok && r->Ok_0@
                == scan_fields(self.ds.fields(), views(self.projection@)),
            !all_known(self.ds.fields(), views(self.projection@)) ==> (r matches Err(
                QueryError::UnknownField(n),
            ) && is_first_unknown(self.ds.fields(), views(self.projection@), n@)),
    {
        let schema = self.ds.schema();
        if self.projection.len() == 0 {
            Ok(schema)
        } else {
            schema.select(as_strs(&self.projection))
        }
    }

    /// The batches of the source.
    pub fn execute(&self) -> (r: Result<Vec<RecordBatch>, QueryError>)
        ensures
            scan_gives(r, self.executed()),
    {
        self.ds.scan(as_strs(&self.projection))
    }
}

} // verus!
