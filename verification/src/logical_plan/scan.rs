//! Scans of a data source.

use crate::datasource::Source;
use crate::datatypes::schema::{
    all_known, is_first_unknown, selected, slice_views, FieldSpec, Schema,
};
use crate::error::QueryError;
use crate::text::{join, joined, quote, debug_text, views};
use vstd::prelude::*;
use vstd::string::*;

verus! {

/// A scan of a data source: the leaf of a plan.
pub struct Scan {
    pub path: String,
    pub datasource: Source,
    pub projection: Vec<String>,
    pub schema: Schema,
}

/// The schema of a scan: that of the source where the projection is empty,
/// else the fields that the projection selects.
pub open spec fn scan_fields(source: Seq<FieldSpec>, projection: Seq<Seq<char>>) -> Seq<FieldSpec> {
    if projection.len() == 0 {
        source
    } else {
        selected(source, projection)
    }
}

/// The string slices of a list of strings.
pub fn as_strs(names: &Vec<String>) -> (r: Vec<&str>)
    ensures
        slice_views(r@) == views(names@),
{
    let mut out: Vec<&str> = Vec::new();
    let mut i: usize = 0;
    while i < names.len()
        invariant
            i <= names.len(),
            out@.len() == i,
            forall|k: int| 0 <= k < i ==> (#[trigger] out@[k])@ == names@[k]@,
        decreases names.len() - i,
    {
        out.push(names[i].as_str());
        i = i + 1;
    }
    out
}

/// The quoted names of a printed projection.
pub open spec fn quoted(names: Seq<Seq<char>>) -> Seq<Seq<char>> {
    names.map_values(|n: Seq<char>| debug_text(n))
}

impl Scan {
    /// The scan holds the schema that its source and its projection give,
    /// and its projection names fields of the source only.
    pub open spec fn wf(&self) -> bool {
        &&& all_known(self.datasource.fields(), views(self.projection@))
        &&& self.schema@ == scan_fields(self.datasource.fields(), views(self.projection@))
    }

    /// The text of the node: the path and the projection, each name as
    /// `{:?}` prints it.
    pub open spec fn text(&self) -> Seq<char> {
        if self.projection@.len() == 0 {
            "Scan: "@ + self.path@ + "; projection=None"@
        } else {
            "Scan: "@ + self.path@ + "; projection=["@ + joined(
                quoted(views(self.projection@)),
                ", "@,
            ) + "]"@
        }
    }

    /// A scan of `datasource` that reads the fields called `projection`, or
    /// all fields where `projection` is empty. Fails with the first name
    /// that the source does not have.
    pub fn new(path: String, datasource: Source, projection: Vec<String>) -> (r: Result<
        Scan,
        QueryError,
    >)
        ensures
            all_known(datasource.fields(), views(projection@)) ==> r is Ok && r->Ok_0.wf()
                && r->Ok_0.path == path && r->Ok_0.datasource == datasource
                && r->Ok_0.projection == projection,
            !all_known(datasource.fields(), views(projection@)) ==> (r matches Err(
                QueryError::UnknownField(n),
            ) && is_first_unknown(datasource.fields(), views(projection@), n@)),
    {
        let schema = match Self::derive_schema(&datasource, &projection) {
            Ok(s) => s,
            Err(e) => {
                return Err(e);
            },
        };
        Ok(Scan { path, datasource, projection, schema })
    }

    /// The schema that a source and a projection give.
    fn derive_schema(datasource: &Source, projection: &Vec<String>) -> (r: Result<
        Schema,
        QueryError,
    >)
        ensures
            all_known(datasource.fields(), views(projection@)) ==> r is Ok && r->Ok_0@
                == scan_fields(datasource.fields(), views(projection@)),
            !all_known(datasource.fields(), views(projection@)) ==> (r matches Err(
                QueryError::UnknownField(n),
            ) && is_first_unknown(datasource.fields(), views(projection@), n@)),
    {
        let schema = datasource.schema();
        if projection.len() == 0 {
            Ok(schema)
        } else {
            schema.select(as_strs(projection))
        }
    }

    /// The schema of the scan.
    pub fn schema(&self) -> (r: Schema)
        ensures
            r@ == self.schema@,
    {
        self.schema.clone()
    }

    /// The text of the node.
    pub fn to_string(&self) -> (r: String)
        ensures
            r@ == self.text(),
    {
        let mut out = "Scan: ".to_owned();
        out.append(self.path.as_str());
        if self.projection.len() == 0 {
            out.append("; projection=None");
        } else {
            out.append("; projection=[");
            let mut names: Vec<String> = Vec::new();
            let mut i: usize = 0;
            while i < self.projection.len()
                invariant
                    i <= self.projection.len(),
                    names@.len() == i,
                    forall|k: int|
                        0 <= k < i ==> (#[trigger] names@[k])@ == debug_text(self.projection@[k]@),
                decreases self.projection.len() - i,
            {
                names.push(quote(self.projection[i].as_str()));
                i = i + 1;
            }
            assert(views(names@) =~= quoted(views(self.projection@)));
            out.append(join(&names, ", ").as_str());
            out.append("]");
        }
        out
    }
}

} // verus!
