//! A source that holds its batches in memory.

use crate::datasource::scan_gives;
use crate::datatypes::column_vector::ColumnVector;
use crate::datatypes::record_batch::{batch_views, BatchSpec, RecordBatch};
use crate::datatypes::schema::{
    all_known, first_index, is_first_unknown, lemma_one_first_unknown, selected, slice_views, FieldSpec, Schema,
};
use crate::error::{QueryError, QueryFault};
use vstd::prelude::*;

verus! {

/// Batches in memory, and the schema that they share.
pub struct InMemoryDataSource {
    pub schema: Schema,
    pub data: Vec<RecordBatch>,
}

/// The batch with the columns of `b` at the places of the fields called
/// `names`; a failure where `b` has fewer columns than the schema has
/// fields.
pub open spec fn projected(b: BatchSpec, fields: Seq<FieldSpec>, names: Seq<Seq<char>>) -> Result<
    BatchSpec,
    QueryFault,
> {
    if b.columns.len() < fields.len() {
        Err(QueryFault::IndexOutOfRange(b.columns.len() as usize))
    } else if names.len() == 0 {
        Ok(BatchSpec { schema: fields, columns: b.columns })
    } else {
        Ok(
            BatchSpec {
                schema: selected(fields, names),
                columns: Seq::new(names.len(), |k: int| b.columns[first_index(fields, names[k])]),
            },
        )
    }
}

/// The batches of a run, each projected; the first failure stops the run.
pub open spec fn projected_all(
    data: Seq<BatchSpec>,
    fields: Seq<FieldSpec>,
    names: Seq<Seq<char>>,
) -> Result<Seq<BatchSpec>, QueryFault>
    decreases data.len(),
{
    if data.len() == 0 {
        Ok(Seq::empty())
    } else {
        match projected_all(data.drop_last(), fields, names) {
            Err(e) => Err(e),
            Ok(done) => match projected(data.last(), fields, names) {
                Ok(b) => Ok(done.push(b)),
                Err(e) => Err(e),
            },
        }
    }
}

/// What a scan of batches in memory gives: a failure with the first name
/// that the schema does not have; else the batches, each with the columns
/// of the names, or with all columns where no name is given.
pub open spec fn in_memory_scanned(
    fields: Seq<FieldSpec>,
    data: Seq<BatchSpec>,
    names: Seq<Seq<char>>,
    unknown: Seq<char>,
) -> Result<Seq<BatchSpec>, QueryFault> {
    if !all_known(fields, names) {
        Err(QueryFault::UnknownField(unknown))
    } else {
        projected_all(data, fields, names)
    }
}

impl InMemoryDataSource {
    pub fn new(schema: Schema, data: Vec<RecordBatch>) -> (r: InMemoryDataSource)
        ensures
            r == (InMemoryDataSource { schema, data }),
    {
        InMemoryDataSource { schema, data }
    }

    /// The first of `names` that the schema does not have; any text where
    /// it has them all.
    pub open spec fn first_unknown(&self, names: Seq<Seq<char>>) -> Seq<char> {
        choose|n: Seq<char>| is_first_unknown(self.schema@, names, n)
    }

    /// What a scan of the source gives for a projection.
    pub open spec fn scanned(&self, names: Seq<Seq<char>>) -> Result<Seq<BatchSpec>, QueryFault> {
        in_memory_scanned(
            self.schema@,
            batch_views(self.data@),
            names,
            self.first_unknown(names),
        )
    }

    /// The schema of the source.
    pub fn schema(&self) -> (r: Schema)
        ensures
            r@ == self.schema@,
    {
        self.schema.clone()
    }

    /// One batch with the columns at `indices`, under the schema
    /// `read_schema`; with all its columns where `indices` is empty.
    fn project_batch(
        &self,
        batch: &RecordBatch,
        read_schema: &Schema,
        indices: &Vec<usize>,
        Ghost(names): Ghost<Seq<Seq<char>>>,
    ) -> (r: Result<RecordBatch, QueryError>)
        requires
            indices@.len() == names.len(),
            forall|k: int|
                0 <= k < indices@.len() ==> (#[trigger] indices@[k]) == first_index(
                    self.schema@,
                    names[k],
                ) && indices@[k] < self.schema@.len(),
            names.len() > 0 ==> read_schema@ == selected(self.schema@, names),
            names.len() == 0 ==> read_schema@ == self.schema@,
        ensures
            match projected(batch@, self.schema@, names) {
                Ok(b) => r is Ok && r->Ok_0@ == b,
                Err(e) => r is Err && r->Err_0@ == e,
            },
    {
        if batch.fields.len() < self.schema.fields.len() {
            return Err(QueryError::IndexOutOfRange(batch.fields.len()));
        }
        let mut fields: Vec<ColumnVector> = Vec::new();
        if indices.len() == 0 {
            let mut j: usize = 0;
            while j < batch.fields.len()
                invariant
                    j <= batch.fields.len(),
                    fields@.len() == j,
                    forall|k: int| 0 <= k < j ==> (#[trigger] fields@[k])@ == batch.fields@[k]@,
                decreases batch.fields.len() - j,
            {
                fields.push(batch.field(j));
                j = j + 1;
            }
            let r = RecordBatch { schema: read_schema.clone(), fields };
            assert(r@.columns =~= batch@.columns);
            Ok(r)
        } else {
            let mut k: usize = 0;
            while k < indices.len()
                invariant
                    k <= indices.len(),
                    fields@.len() == k,
                    batch.fields@.len() >= self.schema@.len(),
                    indices@.len() == names.len(),
                    forall|j: int|
                        0 <= j < indices@.len() ==> (#[trigger] indices@[j]) == first_index(
                            self.schema@,
                            names[j],
                        ) && indices@[j] < self.schema@.len(),
                    forall|j: int|
                        0 <= j < k ==> (#[trigger] fields@[j])@ == batch.fields@[first_index(
                            self.schema@,
                            names[j],
                        )]@,
                decreases indices.len() - k,
            {
                let i: usize = indices[k];
                fields.push(batch.field(i));
                k = k + 1;
            }
            let r = RecordBatch { schema: read_schema.clone(), fields };
            proof {
                let wanted = Seq::new(
                    names.len(),
                    |k: int| batch@.columns[first_index(self.schema@, names[k])],
                );
                assert forall|k: int| 0 <= k < names.len() implies r@.columns[k] == wanted[k] by {
                    assert(r.fields@[k]@ == batch.fields@[indices@[k] as int]@);
                }
                assert(r@.columns =~= wanted);
            }
            Ok(r)
        }
    }

    /// The batches of the source, with the columns called `projection`, in
    /// that order; with all columns where `projection` is empty.
    pub fn scan(&self, projection: Vec<&str>) -> (r: Result<Vec<RecordBatch>, QueryError>)
        ensures
            scan_gives(r, self.scanned(slice_views(projection@))),
    {
        let ghost names = slice_views(projection@);
        let mut indices: Vec<usize> = Vec::new();
        let mut k: usize = 0;
        while k < projection.len()
            invariant
                k <= projection.len(),
                names == slice_views(projection@),
                indices@.len() == k,
                all_known(self.schema@, names.subrange(0, k as int)),
                forall|j: int|
                    0 <= j < k ==> (#[trigger] indices@[j]) == first_index(self.schema@, names[j])
                        && indices@[j] < self.schema@.len(),
            decreases projection.len() - k,
        {
            let name: &str = projection[k];
            assert(names[k as int] == name@);
            match self.schema.index_of(name) {
                Some(i) => {
                    indices.push(i);
                },
                None => {
                    proof {
                        lemma_one_first_unknown(self.schema@, names, name@);
                    }
                    return Err(QueryError::UnknownField(name.to_owned()));
                },
            }
            k = k + 1;
        }
        proof {
            assert(names.subrange(0, k as int) =~= names);
        }
        let read_schema = if projection.len() == 0 {
            self.schema.clone()
        } else {
            match self.schema.select(projection) {
                Ok(s) => s,
                Err(e) => {
                    return Err(e);
                },
            }
        };
        let mut out: Vec<RecordBatch> = Vec::new();
        let mut b: usize = 0;
        proof {
            assert(batch_views(out@) =~= Seq::<BatchSpec>::empty());
        }
        while b < self.data.len()
            invariant
                b <= self.data.len(),
                names == slice_views(projection@),
                indices@.len() == names.len(),
                all_known(self.schema@, names),
                forall|j: int|
                    0 <= j < indices@.len() ==> (#[trigger] indices@[j]) == first_index(
                        self.schema@,
                        names[j],
                    ) && indices@[j] < self.schema@.len(),
                names.len() > 0 ==> read_schema@ == selected(self.schema@, names),
                names.len() == 0 ==> read_schema@ == self.schema@,
                projected_all(batch_views(self.data@).subrange(0, b as int), self.schema@, names)
                    == Ok::<Seq<BatchSpec>, QueryFault>(batch_views(out@)),
            decreases self.data.len() - b,
        {
            proof {
                let all = batch_views(self.data@);
                assert(all.subrange(0, b + 1).drop_last() =~= all.subrange(0, b as int));
            }
            let ghost before = batch_views(out@);
            match self.project_batch(&self.data[b], &read_schema, &indices, Ghost(names)) {
                Ok(batch) => {
                    out.push(batch);
                    proof {
                        assert(batch_views(out@) =~= before.push(batch@));
                    }
                },
                Err(e) => {
                    proof {
                        lemma_failure_stays(
                            batch_views(self.data@),
                            self.schema@,
                            names,
                            b + 1,
                        );
                    }
                    return Err(e);
                },
            }
            b = b + 1;
        }
        proof {
            assert(batch_views(self.data@).subrange(0, b as int) =~= batch_views(self.data@));
        }
        Ok(out)
    }
}

/// A run whose first batches fail fails as they do.
pub proof fn lemma_failure_stays(
    data: Seq<BatchSpec>,
    fields: Seq<FieldSpec>,
    names: Seq<Seq<char>>,
    k: int,
)
    requires
        0 <= k <= data.len(),
        projected_all(data.subrange(0, k), fields, names) is Err,
    ensures
        projected_all(data, fields, names) == projected_all(data.subrange(0, k), fields, names),
    decreases data.len() - k,
{
    if k == data.len() {
        assert(data.subrange(0, k) =~= data);
    } else {
        assert(data.subrange(0, k + 1).drop_last() =~= data.subrange(0, k));
        lemma_failure_stays(data, fields, names, k + 1);
    }
}

} // verus!
