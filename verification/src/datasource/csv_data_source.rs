//! A source that reads comma-separated values.

use crate::datasource::scan_gives;
use crate::datatypes::arrow_types::ArrowType;
use crate::datatypes::arrow_vector_builder::{build_vector, built, views_of};
use crate::datatypes::column_vector::{ColumnSpec, ColumnVector};
use crate::datatypes::record_batch::{batch_views, BatchSpec, RecordBatch};
use crate::datatypes::scalar::{view_of, Datum, ScalarValue};
use crate::datatypes::schema::{
    all_known, first_index, has_field, is_first_unknown, lemma_one_first_unknown, selected, slice_views, Field, FieldSpec,
    Schema,
};
use crate::error::{QueryError, QueryFault};
use crate::text::{decimal_text, integer_to_string};
use csv::{ReaderBuilder, Terminator, Trim};
use vstd::prelude::*;
use vstd::string::*;

verus! {

/// How the records of a file end.
pub enum RecordEnd {
    /// With a carriage return, a line feed, or the one after the other.
    CRLF,
    /// With this byte.
    Any(u8),
}

/// Which fields of a file are read without the white space around them.
pub enum Trimming {
    Nothing,
    Headers,
    Fields,
    All,
}

/// How a file is read.
pub struct CsvFormat {
    /// Whether the first record names the fields.
    pub has_headers: bool,
    /// The byte between two fields.
    pub delimiter: u8,
    pub terminator: RecordEnd,
    pub trim: Trimming,
}

/// The format of the files that a source reads: fields are parted by
/// commas and trimmed, headers too, and a record ends with a carriage
/// return, a line feed, or the one after the other.
pub open spec fn csv_format(has_headers: bool) -> CsvFormat {
    CsvFormat { has_headers, delimiter: 0x2c, terminator: RecordEnd::CRLF, trim: Trimming::All }
}

/// The first record that the csv reader finds in `content`, read in the
/// given format, field by field, as its `headers` gives it. `None` where
/// the reader cannot give it.
pub uninterp spec fn csv_headers(content: Seq<u8>, format: CsvFormat) -> Option<Seq<Seq<char>>>;

/// The records that the csv reader finds in `content`, read in the given
/// format, in order, each field by field; those after the header where
/// the format has headers. `None` stands for a record that the reader
/// rejects.
pub uninterp spec fn csv_records(content: Seq<u8>, format: CsvFormat) -> Seq<
    Option<Seq<Seq<char>>>,
>;

/// The texts of the fields of one record.
pub open spec fn record_view(record: Vec<String>) -> Seq<Seq<char>> {
    record@.map_values(|s: String| s@)
}

/// The texts of the fields of a record that may be absent.
pub open spec fn record_option_view(record: Option<Vec<String>>) -> Option<Seq<Seq<char>>> {
    match record {
        Some(r) => Some(record_view(r)),
        None => None,
    }
}

/// The texts of a run of rows.
pub open spec fn rows_view(rows: Seq<Vec<String>>) -> Seq<Seq<Seq<char>>> {
    rows.map_values(|r: Vec<String>| record_view(r))
}

/// The texts of a run of records.
pub open spec fn records_view(records: Seq<Option<Vec<String>>>) -> Seq<Option<Seq<Seq<char>>>> {
    records.map_values(|r: Option<Vec<String>>| record_option_view(r))
}

/// csv's `Reader::headers`, on a reader that `ReaderBuilder` makes over
/// `content` with the headers flag, the delimiter, the terminator and the
/// trimming of the format. Believed of it: it gives the first record, or
/// fails, as `csv_headers` says.
#[verifier::external_body]
fn read_headers(content: &[u8], format: &CsvFormat) -> (r: Option<Vec<String>>)
    ensures
        record_option_view(r) == csv_headers(content@, *format),
{
    let terminator = match format.terminator {
        RecordEnd::CRLF => Terminator::CRLF,
        RecordEnd::Any(b) => Terminator::Any(b),
    };
    let trim = match format.trim {
        Trimming::Nothing => Trim::None,
        Trimming::Headers => Trim::Headers,
        Trimming::Fields => Trim::Fields,
        Trimming::All => Trim::All,
    };
    let mut reader = ReaderBuilder::new().has_headers(format.has_headers).terminator(terminator)
        .delimiter(format.delimiter).trim(trim).from_reader(content);
    reader.headers().ok().map(|h| h.iter().map(|f| f.to_string()).collect())
}

/// csv's `Reader::into_records`, on a reader that `ReaderBuilder` makes
/// over `content` with the headers flag, the delimiter, the terminator and
/// the trimming of the format. Believed of it: the iterator yields the
/// records that `csv_records` names, a rejected one as `None`.
#[verifier::external_body]
fn read_records(content: &[u8], format: &CsvFormat) -> (r: Vec<Option<Vec<String>>>)
    ensures
        records_view(r@) == csv_records(content@, *format),
{
    let terminator = match format.terminator {
        RecordEnd::CRLF => Terminator::CRLF,
        RecordEnd::Any(b) => Terminator::Any(b),
    };
    let trim = match format.trim {
        Trimming::Nothing => Trim::None,
        Trimming::Headers => Trim::Headers,
        Trimming::Fields => Trim::Fields,
        Trimming::All => Trim::All,
    };
    let reader = ReaderBuilder::new().has_headers(format.has_headers).terminator(terminator)
        .delimiter(format.delimiter).trim(trim).from_reader(content);
    reader.into_records().map(|r| r.ok().map(|s| s.iter().map(|f| f.to_string()).collect())).collect()
}

/// The schema that is inferred from a first record: every field is a text;
/// it is called as the header says or, without headers, `field_` and its
/// place.
pub open spec fn inferred(headers: Seq<Seq<char>>, has_headers: bool) -> Seq<FieldSpec> {
    Seq::new(
        headers.len(),
        |i: int|
            FieldSpec {
                name: if has_headers {
                    headers[i]
                } else {
                    "field_"@ + decimal_text(i)
                },
                data_type: ArrowType::StringType,
            },
    )
}

/// The schema of a csv source: the one provided, else the one inferred
/// from the content; `None` where the content gives no first record.
pub open spec fn schema_for(schema: Option<Schema>, content: Seq<u8>, has_headers: bool) -> Option<
    Seq<FieldSpec>,
> {
    match schema {
        Some(s) => Some(s@),
        None => match csv_headers(content, csv_format(has_headers)) {
            Some(h) => Some(inferred(h, has_headers)),
            None => None,
        },
    }
}

/// The records of a run that the reader did not reject, in order.
pub open spec fn kept(records: Seq<Option<Seq<Seq<char>>>>) -> Seq<Seq<Seq<char>>>
    decreases records.len(),
{
    if records.len() == 0 {
        Seq::empty()
    } else {
        match records.last() {
            Some(r) => kept(records.drop_last()).push(r),
            None => kept(records.drop_last()),
        }
    }
}

/// The value that a row gives for the field called `name`: the text at the
/// place that the field has in the schema of the file; absent where the
/// schema has no such field or the row is too short.
pub open spec fn cell(row: Seq<Seq<char>>, file: Seq<FieldSpec>, name: Seq<char>) -> Option<Datum> {
    if has_field(file, name) && first_index(file, name) < row.len() {
        Some(Datum::Text(row[first_index(file, name)]))
    } else {
        None
    }
}

/// The values that the rows give for the field called `name`.
pub open spec fn cells(rows: Seq<Seq<Seq<char>>>, file: Seq<FieldSpec>, name: Seq<char>) -> Seq<
    Option<Datum>,
> {
    Seq::new(rows.len(), |k: int| cell(rows[k], file, name))
}

/// The first `n` columns of the batch of some rows: for each field that is
/// read, the column of its type built from the values of the rows. The
/// first column that cannot be built fails the batch.
pub open spec fn columns_of(
    rows: Seq<Seq<Seq<char>>>,
    file: Seq<FieldSpec>,
    read: Seq<FieldSpec>,
    n: nat,
) -> Result<Seq<ColumnSpec>, QueryFault>
    decreases n,
{
    if n == 0 {
        Ok(Seq::empty())
    } else {
        match columns_of(rows, file, read, (n - 1) as nat) {
            Err(e) => Err(e),
            Ok(done) => match built(read[n - 1].data_type, cells(rows, file, read[n - 1].name)) {
                Ok(c) => Ok(done.push(c)),
                Err(e) => Err(e@),
            },
        }
    }
}

/// The batch of some rows.
pub open spec fn batch_of(rows: Seq<Seq<Seq<char>>>, file: Seq<FieldSpec>, read: Seq<FieldSpec>) -> Result<
    BatchSpec,
    QueryFault,
> {
    match columns_of(rows, file, read, read.len()) {
        Ok(columns) => Ok(BatchSpec { schema: read, columns }),
        Err(e) => Err(e),
    }
}

/// The batches of the rows from `start` on: the rows are taken `size` at
/// a time, so that only the last batch may hold fewer; the first batch
/// that fails ends the scan.
pub open spec fn batches_from(
    rows: Seq<Seq<Seq<char>>>,
    size: nat,
    file: Seq<FieldSpec>,
    read: Seq<FieldSpec>,
    start: nat,
) -> Result<Seq<BatchSpec>, QueryFault>
    decreases rows.len() - start,
{
    if size == 0 || start >= rows.len() {
        Ok(Seq::empty())
    } else {
        let end: nat = if start + size < rows.len() {
            start + size
        } else {
            rows.len()
        };
        match batch_of(rows.subrange(start as int, end as int), file, read) {
            Err(e) => Err(e),
            Ok(b) => match batches_from(rows, size, file, read, end) {
                Ok(rest) => Ok(seq![b] + rest),
                Err(e) => Err(e),
            },
        }
    }
}

/// What a scan of a csv source gives: a failure with the first name that
/// the schema does not have; else the batches of the records that the
/// reader did not reject, with the fields called `names`, or with all
/// fields where no name is given.
pub open spec fn csv_scanned(
    records: Seq<Option<Seq<Seq<char>>>>,
    size: nat,
    file: Seq<FieldSpec>,
    names: Seq<Seq<char>>,
    unknown: Seq<char>,
) -> Result<Seq<BatchSpec>, QueryFault> {
    if names.len() == 0 {
        batches_from(kept(records), size, file, file, 0)
    } else if !all_known(file, names) {
        Err(QueryFault::UnknownField(unknown))
    } else {
        batches_from(kept(records), size, file, selected(file, names), 0)
    }
}

/// The content of a file of comma-separated values, and how to read it.
pub struct CsvDataSource {
    pub file_name: String,
    pub schema: Schema,
    /// The bytes of the file.
    pub content: Vec<u8>,
    /// Whether the first record names the fields.
    pub has_headers: bool,
    /// The most rows of one batch.
    pub batch_size: usize,
}

impl CsvDataSource {
    /// Whether the source is the one that is made of these: the name and
    /// the content of the file, the schema, whether the first record
    /// names the fields, and the most rows of a batch.
    pub open spec fn holds(
        &self,
        file_name: Seq<char>,
        content: Seq<u8>,
        fields: Seq<FieldSpec>,
        has_headers: bool,
        batch_size: usize,
    ) -> bool {
        &&& self.file_name@ == file_name
        &&& self.content@ == content
        &&& self.schema@ == fields
        &&& self.has_headers == has_headers
        &&& self.batch_size == batch_size
    }

    /// The first of `names` that the schema does not have; any text where
    /// it has them all.
    pub open spec fn first_unknown(&self, names: Seq<Seq<char>>) -> Seq<char> {
        choose|n: Seq<char>| is_first_unknown(self.schema@, names, n)
    }

    /// What a scan of the source gives for a projection.
    pub open spec fn scanned(&self, names: Seq<Seq<char>>) -> Result<Seq<BatchSpec>, QueryFault> {
        csv_scanned(
            csv_records(self.content@, csv_format(self.has_headers)),
            self.batch_size as nat,
            self.schema@,
            names,
            self.first_unknown(names),
        )
    }

    /// A source over the content of the file called `file_name`. Without a
    /// schema, one is inferred from the first record; that fails where the
    /// reader gives none.
    pub fn new(
        file_name: &str,
        content: Vec<u8>,
        schema: Option<Schema>,
        has_headers: bool,
        batch_size: usize,
    ) -> (r: Result<CsvDataSource, QueryError>)
        ensures
            match schema_for(schema, content@, has_headers) {
                Some(fields) => r is Ok && r->Ok_0.holds(
                    file_name@,
                    content@,
                    fields,
                    has_headers,
                    batch_size,
                ),
                None => r is Err && r->Err_0@ == QueryFault::SourceIoFailure,
            },
    {
        let schema = match schema {
            Some(s) => s,
            None => match Self::infer_schema(has_headers, &content) {
                Ok(s) => s,
                Err(e) => {
                    return Err(e);
                },
            },
        };
        Ok(
            CsvDataSource {
                file_name: file_name.to_owned(),
                schema,
                content,
                has_headers,
                batch_size,
            },
        )
    }

    /// The format in which the source reads its files.
    pub fn format(has_headers: bool) -> (r: CsvFormat)
        ensures
            r == csv_format(has_headers),
    {
        CsvFormat { has_headers, delimiter: 0x2c, terminator: RecordEnd::CRLF, trim: Trimming::All }
    }

    /// The schema that a first record gives: a text field for each of its
    /// fields, called as the record says where it holds the headers, else
    /// `field_` and its place.
    pub fn header_schema(headers: &Vec<String>, has_headers: bool) -> (r: Schema)
        ensures
            r@ == inferred(record_view(*headers), has_headers),
    {
        let ghost names = record_view(*headers);
        let mut fields: Vec<Field> = Vec::new();
        let mut i: usize = 0;
        while i < headers.len()
            invariant
                i <= headers.len(),
                names == record_view(*headers),
                fields@.len() == i,
                forall|k: int|
                    0 <= k < i ==> (#[trigger] fields@[k])@ == inferred(names, has_headers)[k],
            decreases headers.len() - i,
        {
            let name = if has_headers {
                headers[i].clone()
            } else {
                let mut n = "field_".to_owned();
                n.append(integer_to_string(i as i128).as_str());
                n
            };
            fields.push(Field { name, data_type: ArrowType::StringType });
            i = i + 1;
        }
        let r = Schema { fields };
        r
    }

    /// The schema that the first record of the content gives.
    pub fn infer_schema(has_headers: bool, content: &Vec<u8>) -> (r: Result<Schema, QueryError>)
        ensures
            match csv_headers(content@, csv_format(has_headers)) {
                Some(h) => r is Ok && r->Ok_0@ == inferred(h, has_headers),
                None => r is Err && r->Err_0@ == QueryFault::SourceIoFailure,
            },
    {
        let format = Self::format(has_headers);
        match read_headers(content.as_slice(), &format) {
            Some(headers) => Ok(Self::header_schema(&headers, has_headers)),
            None => Err(QueryError::SourceIoFailure),
        }
    }

    /// The schema of the source.
    pub fn schema(&self) -> (r: Schema)
        ensures
            r@ == self.schema@,
    {
        self.schema.clone()
    }

    /// The batch of some rows: for each field that is read, the column of
    /// its type built from the texts that the rows hold at its place in
    /// the schema of the file.
    pub fn create_batch(&self, read_schema: &Schema, rows: &Vec<Vec<String>>) -> (r: Result<
        RecordBatch,
        QueryError,
    >)
        ensures
            match batch_of(rows_view(rows@), self.schema@, read_schema@) {
                Ok(b) => r is Ok && r->Ok_0@ == b,
                Err(e) => r is Err && r->Err_0@ == e,
            },
    {
        let ghost texts = rows_view(rows@);
        let mut fields: Vec<ColumnVector> = Vec::new();
        let mut j: usize = 0;
        proof {
            assert(fields@.map_values(|c: ColumnVector| c@) =~= Seq::<ColumnSpec>::empty());
        }
        while j < read_schema.fields.len()
            invariant
                j <= read_schema.fields.len(),
                texts == rows_view(rows@),
                fields@.len() == j,
                columns_of(texts, self.schema@, read_schema@, j as nat) == Ok::<
                    Seq<ColumnSpec>,
                    QueryFault,
                >(fields@.map_values(|c: ColumnVector| c@)),
            decreases read_schema.fields.len() - j,
        {
            let field = &read_schema.fields[j];
            let position = self.schema.index_of(field.name.as_str());
            let mut values: Vec<Option<ScalarValue>> = Vec::new();
            let mut k: usize = 0;
            while k < rows.len()
                invariant
                    k <= rows.len(),
                    texts == rows_view(rows@),
                    has_field(self.schema@, field.name@) ==> position is Some && position->Some_0
                        == first_index(self.schema@, field.name@),
                    !has_field(self.schema@, field.name@) ==> position is None,
                    values@.len() == k,
                    forall|i: int|
                        0 <= i < k ==> view_of(#[trigger] values@[i]) == cell(
                            texts[i],
                            self.schema@,
                            field.name@,
                        ),
                decreases rows.len() - k,
            {
                let row = &rows[k];
                let value = match position {
                    Some(p) => if p < row.len() {
                        Some(ScalarValue::Utf8(row[p].clone()))
                    } else {
                        None
                    },
                    None => None,
                };
                values.push(value);
                k = k + 1;
            }
            proof {
                assert(views_of(values@) =~= cells(texts, self.schema@, field.name@));
            }
            let ghost before = fields@.map_values(|c: ColumnVector| c@);
            match build_vector(field.data_type, &values) {
                Ok(c) => {
                    fields.push(c);
                    proof {
                        assert(fields@.map_values(|c: ColumnVector| c@) =~= before.push(c@));
                    }
                },
                Err(e) => {
                    proof {
                        lemma_columns_failure_stays(
                            texts,
                            self.schema@,
                            read_schema@,
                            (j + 1) as nat,
                        );
                    }
                    return Err(e);
                },
            }
            j = j + 1;
        }
        Ok(RecordBatch { schema: read_schema.clone(), fields })
    }

    /// The records that the reader did not reject, in order.
    pub fn kept_records(records: &Vec<Option<Vec<String>>>) -> (r: Vec<Vec<String>>)
        ensures
            rows_view(r@) == kept(records_view(records@)),
    {
        let ghost all = records_view(records@);
        let mut rows: Vec<Vec<String>> = Vec::new();
        let mut i: usize = 0;
        while i < records.len()
            invariant
                i <= records.len(),
                all == records_view(records@),
                rows_view(rows@) == kept(all.subrange(0, i as int)),
            decreases records.len() - i,
        {
            proof {
                let window = all.subrange(0, i + 1);
                assert(window.drop_last() =~= all.subrange(0, i as int));
            }
            match &records[i] {
                Some(record) => {
                    let mut copy: Vec<String> = Vec::new();
                    let mut f: usize = 0;
                    while f < record.len()
                        invariant
                            f <= record.len(),
                            copy@.len() == f,
                            forall|k: int| 0 <= k < f ==> (#[trigger] copy@[k])@ == record@[k]@,
                        decreases record.len() - f,
                    {
                        copy.push(record[f].clone());
                        f = f + 1;
                    }
                    assert(record_view(copy) =~= record_view(*record));
                    rows.push(copy);
                },
                None => {},
            }
            i = i + 1;
        }
        proof {
            assert(all.subrange(0, i as int) =~= all);
        }
        rows
    }

    /// The batches of some records, with the fields of `read_schema`: the
    /// records that the reader did not reject, `batch_size` at a time.
    pub fn batches(&self, read_schema: &Schema, records: &Vec<Option<Vec<String>>>) -> (r: Result<
        Vec<RecordBatch>,
        QueryError,
    >)
        ensures
            scan_gives(
                r,
                batches_from(
                    kept(records_view(records@)),
                    self.batch_size as nat,
                    self.schema@,
                    read_schema@,
                    0,
                ),
            ),
    {
        let size: usize = self.batch_size;
        let mut out: Vec<RecordBatch> = Vec::new();
        let mut remaining: Vec<Vec<String>> = Self::kept_records(records);
        let ghost rows = rows_view(remaining@);
        let total: usize = remaining.len();
        let mut start: usize = 0;
        proof {
            assert(batch_views(out@) =~= Seq::<BatchSpec>::empty());
        }
        if size == 0 {
            return Ok(out);
        }
        while start < total
            invariant
                start <= total,
                total == rows.len(),
                size > 0,
                size == self.batch_size,
                rows == kept(records_view(records@)),
                remaining@.len() == total - start,
                rows_view(remaining@) == rows.subrange(start as int, total as int),
                batches_from(rows, size as nat, self.schema@, read_schema@, 0) == (match batches_from(
                    rows,
                    size as nat,
                    self.schema@,
                    read_schema@,
                    start as nat,
                ) {
                    Ok(rest) => Ok::<Seq<BatchSpec>, QueryFault>(batch_views(out@) + rest),
                    Err(e) => Err(e),
                }),
            decreases total - start,
        {
            let take: usize = if size < total - start {
                size
            } else {
                total - start
            };
            let ghost whole = rows_view(remaining@);
            let rest = remaining.split_off(take);
            proof {
                assert(rows_view(remaining@) =~= rows.subrange(start as int, start + take));
                assert(whole.subrange(take as int, whole.len() as int) =~= rows.subrange(
                    start + take,
                    total as int,
                ));
            }
            let ghost done = batch_views(out@);
            match self.create_batch(read_schema, &remaining) {
                Ok(batch) => {
                    out.push(batch);
                    proof {
                        let later = batches_from(
                            rows,
                            size as nat,
                            self.schema@,
                            read_schema@,
                            (start + take) as nat,
                        );
                        if later is Ok {
                            assert(done + (seq![batch@] + later->Ok_0) =~= batch_views(out@)
                                + later->Ok_0);
                        }
                    }
                },
                Err(e) => {
                    return Err(e);
                },
            }
            remaining = rest;
            start = start + take;
        }
        Ok(out)
    }

    /// The batches of the content, with the fields called `projection`, in
    /// that order; with all fields where `projection` is empty. A batch
    /// holds the next `batch_size` records that the reader did not reject,
    /// the last batch those that are left.
    pub fn scan(&self, projection: Vec<&str>) -> (r: Result<Vec<RecordBatch>, QueryError>)
        ensures
            scan_gives(r, self.scanned(slice_views(projection@))),
    {
        let ghost names = slice_views(projection@);
        let read_schema = if projection.len() == 0 {
            self.schema.clone()
        } else {
            match self.schema.select(projection) {
                Ok(s) => s,
                Err(e) => {
                    proof {
                        let n = e->UnknownField_0@;
                        lemma_one_first_unknown(self.schema@, names, n);
                    }
                    return Err(e);
                },
            }
        };
        let format = Self::format(self.has_headers);
        let records = read_records(self.content.as_slice(), &format);
        self.batches(&read_schema, &records)
    }
}

/// Columns whose first ones fail fail as they do.
pub proof fn lemma_columns_failure_stays(
    rows: Seq<Seq<Seq<char>>>,
    file: Seq<FieldSpec>,
    read: Seq<FieldSpec>,
    n: nat,
)
    requires
        n <= read.len(),
        columns_of(rows, file, read, n) is Err,
    ensures
        columns_of(rows, file, read, read.len()) == columns_of(rows, file, read, n),
    decreases read.len() - n,
{
    if n < read.len() {
        lemma_columns_failure_stays(rows, file, read, n + 1);
    }
}

} // verus!
