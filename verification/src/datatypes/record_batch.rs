//! Record batches: a schema and columns of equal length.

use crate::datatypes::arrow_types::ArrowType;
use crate::datatypes::column_vector::{ColumnSpec, ColumnVector};
use crate::datatypes::scalar::{Datum, ScalarValue};
use crate::datatypes::schema::{FieldSpec, Schema};
use crate::text::{byte_count, bytes_of, dashes, join, joined, pad_right, padded, repeated, views};
use vstd::prelude::*;
use vstd::string::*;

verus! {

/// A batch as mathematics sees it.
pub struct BatchSpec {
    pub schema: Seq<FieldSpec>,
    pub columns: Seq<ColumnSpec>,
}

impl BatchSpec {
    /// The number of rows: the length of the first column; zero for a batch
    /// without columns.
    pub open spec fn rows(self) -> nat {
        if self.columns.len() == 0 {
            0
        } else {
            self.columns[0].items.len()
        }
    }

    /// Whether the batch has the columns of a schema: one column for each
    /// field, of the type of the field; as many as a vector can hold.
    pub open spec fn conforms(self, schema: Seq<FieldSpec>) -> bool {
        &&& schema.len() <= usize::MAX
        &&& self.columns.len() == schema.len()
        &&& forall|i: int|
            0 <= i < schema.len() ==> (#[trigger] self.columns[i]).data_type == schema[i].data_type
    }

    /// Whether all columns of the batch are of one length.
    pub open spec fn rectangular(self) -> bool {
        forall|j: int|
            0 <= j < self.columns.len() ==> (#[trigger] self.columns[j]).items.len() == self.rows()
    }

    /// Whether the batch is well formed: it has the columns of its schema,
    /// and they are of one length.
    pub open spec fn wf(self) -> bool {
        self.conforms(self.schema) && self.rectangular()
    }
}

/// A schema and the columns that hold its data.
pub struct RecordBatch {
    pub schema: Schema,
    pub fields: Vec<ColumnVector>,
}

impl View for RecordBatch {
    type V = BatchSpec;

    open spec fn view(&self) -> BatchSpec {
        BatchSpec {
            schema: self.schema@,
            columns: self.fields@.map_values(|c: ColumnVector| c@),
        }
    }
}

/// The views of a run of batches.
pub open spec fn batch_views(batches: Seq<RecordBatch>) -> Seq<BatchSpec> {
    batches.map_values(|b: RecordBatch| b@)
}

impl RecordBatch {
    /// The batch has one column for each field of its schema, of the
    /// field's type, and all columns are of one length.
    pub open spec fn wf(&self) -> bool {
        self@.wf()
    }

    /// The number of rows: the length of the first column; zero for a batch
    /// without columns.
    pub open spec fn rows(&self) -> nat {
        if self.fields@.len() == 0 {
            0
        } else {
            self.fields@[0].items().len()
        }
    }

    /// What the column `j` holds in the row `i`.
    pub open spec fn value(&self, i: int, j: int) -> Option<Datum> {
        if 0 <= j < self.fields@.len() {
            self.fields@[j].value_at(i)
        } else {
            None
        }
    }

    /// The text of the value in row `i` and column `j`: that of a value
    /// that is there and is of the type that the schema gives the column.
    pub open spec fn cell(&self, i: int, j: int) -> Option<Seq<char>> {
        if j < self.schema@.len() {
            match self.value(i, j) {
                Some(d) => if d.data_type() == self.schema@[j].data_type {
                    Some(d.text())
                } else {
                    None
                },
                None => None,
            }
        } else {
            None
        }
    }

    /// The texts of the row `i`, column by column.
    pub open spec fn row_cells(&self, i: int) -> Seq<Seq<char>> {
        Seq::new(self.fields@.len(), |j: int| self.cell(i, j)->Some_0)
    }

    /// The line of the row `i`: its texts with commas between them, and a
    /// line feed.
    pub open spec fn row_line(&self, i: int) -> Seq<char> {
        joined(self.row_cells(i), ","@) + "\n"@
    }

    /// The lines of the first `n` rows.
    pub open spec fn lines(&self, n: nat) -> Seq<char>
        decreases n,
    {
        if n == 0 {
            Seq::empty()
        } else {
            self.lines((n - 1) as nat) + self.row_line(n - 1)
        }
    }

    /// Whether every value of the batch has a text.
    pub open spec fn printable(&self) -> bool {
        forall|i: int, j: int|
            0 <= i < self.rows() && 0 <= j < self.fields@.len() ==> (#[trigger] self.cell(
                i,
                j,
            )) is Some
    }

    /// Whether every value of the batch is there, and every column has a
    /// field in the schema.
    pub open spec fn complete(&self) -> bool {
        &&& self.fields@.len() <= self.schema@.len()
        &&& forall|i: int, j: int|
            0 <= i < self.rows() && 0 <= j < self.fields@.len() ==> (#[trigger] self.value(
                i,
                j,
            )) is Some
    }

    /// The text that a table shows for row `i` and column `j`: nothing for
    /// a value of another type than the schema gives the column.
    pub open spec fn shown(&self, i: int, j: int) -> Seq<char> {
        match self.cell(i, j) {
            Some(t) => t,
            None => Seq::empty(),
        }
    }

    /// The width of column `j` in a table of the first `n` rows: the most
    /// bytes that its name or one of its texts takes.
    pub open spec fn width(&self, j: int, n: nat) -> nat
        decreases n,
    {
        if n == 0 {
            bytes_of(self.schema@[j].name).len()
        } else {
            let before = self.width(j, (n - 1) as nat);
            let here = bytes_of(self.shown(n - 1, j)).len();
            if here > before {
                here
            } else {
                before
            }
        }
    }

    /// The first line of a table: the names of the columns, each padded to
    /// the width of its column, between bars.
    pub open spec fn header_line(&self) -> Seq<char> {
        "|"@ + joined(
            Seq::new(
                self.fields@.len(),
                |j: int| padded(self.schema@[j].name, self.width(j, self.rows())),
            ),
            "|"@,
        ) + "|\n"@
    }

    /// The second line of a table: for each column as many dashes as it is
    /// wide, between bars.
    pub open spec fn rule_line(&self) -> Seq<char> {
        "|"@ + joined(
            Seq::new(self.fields@.len(), |j: int| repeated('-', self.width(j, self.rows()))),
            "|"@,
        ) + "|\n"@
    }

    /// The line of row `i` in a table: its texts, each padded to the width
    /// of its column, between bars.
    pub open spec fn table_line(&self, i: int) -> Seq<char> {
        "|"@ + joined(
            Seq::new(
                self.fields@.len(),
                |j: int| padded(self.shown(i, j), self.width(j, self.rows())),
            ),
            "|"@,
        ) + "|\n"@
    }

    /// The lines of the first `n` rows of a table.
    pub open spec fn table_lines(&self, n: nat) -> Seq<char>
        decreases n,
    {
        if n == 0 {
            Seq::empty()
        } else {
            self.table_lines((n - 1) as nat) + self.table_line(n - 1)
        }
    }

    /// Whether the batch has one column for each field of its schema, of
    /// the field's type, and all columns are of one length.
    pub fn is_well_formed(&self) -> (r: bool)
        ensures
            r == self.wf(),
    {
        if self.fields.len() != self.schema.fields.len() {
            return false;
        }
        let rows: usize = self.row_count_or_zero();
        let mut j: usize = 0;
        while j < self.fields.len()
            invariant
                j <= self.fields.len(),
                rows == self.rows(),
                self.fields@.len() == self.schema@.len(),
                forall|k: int|
                    0 <= k < j ==> (#[trigger] self.fields@[k]).data_type()
                        == self.schema@[k].data_type,
                forall|k: int| 0 <= k < j ==> (#[trigger] self.fields@[k]).items().len() == rows,
            decreases self.fields.len() - j,
        {
            assert(self@.columns[j as int] == self.fields@[j as int]@);
            if self.fields[j].get_type() != self.schema.fields[j].data_type {
                return false;
            }
            if self.fields[j].size() != rows {
                return false;
            }
            j = j + 1;
        }
        true
    }

    /// The number of rows. A batch without columns has no row count.
    pub fn row_count(&self) -> (n: usize)
        requires
            self.fields@.len() > 0,
        ensures
            n == self.rows(),
    {
        self.fields[0].size()
    }

    /// The number of rows, and zero for a batch without columns.
    pub fn row_count_or_zero(&self) -> (n: usize)
        ensures
            n == self.rows(),
            n == self@.rows(),
    {
        if self.fields.len() == 0 {
            0
        } else {
            self.fields[0].size()
        }
    }

    /// The number of columns.
    pub fn column_count(&self) -> (n: usize)
        ensures
            n == self.fields@.len(),
    {
        self.fields.len()
    }

    /// The column at `i`.
    pub fn field(&self, i: usize) -> (r: ColumnVector)
        requires
            i < self.fields@.len(),
        ensures
            r.data_type() == self.fields@[i as int].data_type(),
            r.items() == self.fields@[i as int].items(),
    {
        self.fields[i].share()
    }

    /// The text of a value, where it is of type `data_type`.
    pub fn value_to_string(value: &ScalarValue, data_type: &ArrowType) -> (r: Option<String>)
        ensures
            value@.data_type() == *data_type ==> r is Some && r->Some_0@ == value@.text(),
            value@.data_type() != *data_type ==> r is None,
    {
        if value.get_type() == *data_type {
            Some(value.to_text())
        } else {
            None
        }
    }

    /// The batch as lines of comma-separated values, without a header.
    /// `None` where a value is absent, or is of another type than the
    /// schema gives its column.
    pub fn to_csv(&self) -> (r: Option<String>)
        ensures
            self.printable() ==> r is Some && r->Some_0@ == self.lines(self.rows()),
            !self.printable() ==> r is None,
    {
        let rows: usize = self.row_count_or_zero();
        let columns: usize = self.fields.len();
        let mut csv = String::new();
        let mut i: usize = 0;
        while i < rows
            invariant
                i <= rows,
                rows == self.rows(),
                columns == self.fields@.len(),
                csv@ == self.lines(i as nat),
                forall|a: int, b: int|
                    0 <= a < i && 0 <= b < columns ==> (#[trigger] self.cell(a, b)) is Some,
            decreases rows - i,
        {
            let mut row: Vec<String> = Vec::new();
            let mut j: usize = 0;
            while j < columns
                invariant
                    j <= columns,
                    i < rows,
                    rows == self.rows(),
                    columns == self.fields@.len(),
                    row@.len() == j,
                    forall|b: int| 0 <= b < j ==> self.cell(i as int, b) == Some((#[trigger] row@[b])@),
                decreases columns - j,
            {
                if j >= self.schema.fields.len() {
                    return None;
                }
                let value = match self.fields[j].get_value(i) {
                    Some(v) => v,
                    None => {
                        return None;
                    },
                };
                match Self::value_to_string(&value, &self.schema.fields[j].data_type) {
                    Some(t) => {
                        row.push(t);
                    },
                    None => {
                        assert(self.cell(i as int, j as int) is None);
                        return None;
                    },
                }
                j = j + 1;
            }
            proof {
                assert forall|b: int| 0 <= b < columns implies (#[trigger] self.cell(
                    i as int,
                    b,
                )) is Some by {
                    assert(self.cell(i as int, b) == Some(row@[b]@));
                }
                assert(views(row@) =~= self.row_cells(i as int));
            }
            let line = join(&row, ",");
            csv.append(line.as_str());
            csv.append("\n");
            i = i + 1;
        }
        Some(csv)
    }

    /// Whether every value of the batch is there, and every column has a
    /// field in the schema.
    fn is_complete(&self) -> (r: bool)
        ensures
            r == self.complete(),
    {
        let rows: usize = self.row_count_or_zero();
        let columns: usize = self.fields.len();
        if columns > self.schema.fields.len() {
            return false;
        }
        let mut i: usize = 0;
        while i < rows
            invariant
                i <= rows,
                rows == self.rows(),
                columns == self.fields@.len(),
                forall|a: int, b: int|
                    0 <= a < i && 0 <= b < columns ==> (#[trigger] self.value(a, b)) is Some,
            decreases rows - i,
        {
            let mut j: usize = 0;
            while j < columns
                invariant
                    j <= columns,
                    i < rows,
                    rows == self.rows(),
                    columns == self.fields@.len(),
                    forall|b: int| 0 <= b < j ==> (#[trigger] self.value(i as int, b)) is Some,
                decreases columns - j,
            {
                match self.fields[j].get_value(i) {
                    Some(_) => {},
                    None => {
                        assert(self.value(i as int, j as int) is None);
                        return false;
                    },
                }
                j = j + 1;
            }
            i = i + 1;
        }
        true
    }

    /// The text that a table shows for the value in row `i` and column `j`.
    fn shown_text(&self, i: usize, j: usize) -> (r: String)
        requires
            j < self.fields@.len(),
            j < self.schema@.len(),
        ensures
            r@ == self.shown(i as int, j as int),
    {
        match self.fields[j].get_value(i) {
            Some(v) => match Self::value_to_string(&v, &self.schema.fields[j].data_type) {
                Some(t) => t,
                None => String::new(),
            },
            None => String::new(),
        }
    }

    /// The width of column `j` in a table of all rows.
    fn column_width(&self, j: usize) -> (w: usize)
        requires
            j < self.fields@.len(),
            j < self.schema@.len(),
        ensures
            w == self.width(j as int, self.rows()),
    {
        let rows: usize = self.row_count_or_zero();
        let mut w: usize = byte_count(self.schema.fields[j].name.as_str());
        let mut i: usize = 0;
        while i < rows
            invariant
                i <= rows,
                rows == self.rows(),
                j < self.fields@.len(),
                j < self.schema@.len(),
                w == self.width(j as int, i as nat),
            decreases rows - i,
        {
            let t = self.shown_text(i, j);
            let here: usize = byte_count(t.as_str());
            if here > w {
                w = here;
            }
            i = i + 1;
        }
        w
    }

    /// The batch as a table: the names of the columns, a rule, and a line
    /// for each row, with bars between the columns and every column padded
    /// to its width. `None` where a value is absent or a column has no field
    /// in the schema.
    pub fn show(&self) -> (r: Option<String>)
        ensures
            self.complete() ==> r is Some && r->Some_0@ == self.header_line() + self.rule_line()
                + self.table_lines(self.rows()),
            !self.complete() ==> r is None,
    {
        if !self.is_complete() {
            return None;
        }
        let rows: usize = self.row_count_or_zero();
        let columns: usize = self.fields.len();
        let mut widths: Vec<usize> = Vec::new();
        let mut headers: Vec<String> = Vec::new();
        let mut rules: Vec<String> = Vec::new();
        let mut j: usize = 0;
        while j < columns
            invariant
                j <= columns,
                columns == self.fields@.len(),
                columns <= self.schema@.len(),
                widths@.len() == j,
                headers@.len() == j,
                rules@.len() == j,
                forall|b: int|
                    0 <= b < j ==> (#[trigger] widths@[b]) == self.width(b, self.rows()),
                forall|b: int|
                    0 <= b < j ==> (#[trigger] headers@[b])@ == padded(
                        self.schema@[b].name,
                        self.width(b, self.rows()),
                    ),
                forall|b: int|
                    0 <= b < j ==> (#[trigger] rules@[b])@ == repeated(
                        '-',
                        self.width(b, self.rows()),
                    ),
            decreases columns - j,
        {
            let w: usize = self.column_width(j);
            widths.push(w);
            headers.push(pad_right(self.schema.fields[j].name.as_str(), w));
            rules.push(dashes(w));
            j = j + 1;
        }
        let mut out = String::new();
        out.append("|");
        out.append(join(&headers, "|").as_str());
        out.append("|\n");
        out.append("|");
        out.append(join(&rules, "|").as_str());
        out.append("|\n");
        proof {
            assert(views(headers@) =~= Seq::new(
                self.fields@.len(),
                |j: int| padded(self.schema@[j].name, self.width(j, self.rows())),
            ));
            assert(views(rules@) =~= Seq::new(
                self.fields@.len(),
                |j: int| repeated('-', self.width(j, self.rows())),
            ));
        }
        let ghost head = out@;
        let mut i: usize = 0;
        while i < rows
            invariant
                i <= rows,
                rows == self.rows(),
                columns == self.fields@.len(),
                columns <= self.schema@.len(),
                widths@.len() == columns,
                forall|b: int|
                    0 <= b < columns ==> (#[trigger] widths@[b]) == self.width(b, self.rows()),
                head == self.header_line() + self.rule_line(),
                out@ == head + self.table_lines(i as nat),
            decreases rows - i,
        {
            let mut row: Vec<String> = Vec::new();
            let mut j: usize = 0;
            while j < columns
                invariant
                    j <= columns,
                    columns == self.fields@.len(),
                    columns <= self.schema@.len(),
                    widths@.len() == columns,
                    forall|b: int|
                        0 <= b < columns ==> (#[trigger] widths@[b]) == self.width(
                            b,
                            self.rows(),
                        ),
                    row@.len() == j,
                    forall|b: int|
                        0 <= b < j ==> (#[trigger] row@[b])@ == padded(
                            self.shown(i as int, b),
                            self.width(b, self.rows()),
                        ),
                decreases columns - j,
            {
                let t = self.shown_text(i, j);
                row.push(pad_right(t.as_str(), widths[j]));
                j = j + 1;
            }
            out.append("|");
            out.append(join(&row, "|").as_str());
            out.append("|\n");
            proof {
                assert(views(row@) =~= Seq::new(
                    self.fields@.len(),
                    |j: int| padded(self.shown(i as int, j), self.width(j, self.rows())),
                ));
            }
            i = i + 1;
        }
        Some(out)
    }
}

} // verus!
