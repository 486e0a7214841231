//! Reading back the lines that a batch prints.

use crate::datatypes::record_batch::RecordBatch;
use crate::text::joined;
use vstd::prelude::*;

verus! {

/// The pieces of a text between the occurrences of a separator: one more
/// piece than the text has separators.
pub open spec fn split(text: Seq<char>, sep: char) -> Seq<Seq<char>>
    decreases text.len(),
{
    if text.len() == 0 {
        seq![Seq::empty()]
    } else {
        let before = split(text.drop_last(), sep);
        if text.last() == sep {
            before.push(Seq::empty())
        } else {
            before.update(before.len() - 1, before.last().push(text.last()))
        }
    }
}

/// The records that a text of lines holds: the text is cut at the line
/// feeds, what follows the last line feed is left out, and every line is
/// cut at the commas.
pub open spec fn records(text: Seq<char>) -> Seq<Seq<Seq<char>>> {
    split(text, '\n').drop_last().map_values(|line: Seq<char>| split(line, ','))
}

/// Whether a text is free of a character.
pub open spec fn free_of(text: Seq<char>, c: char) -> bool {
    forall|i: int| 0 <= i < text.len() ==> #[trigger] text[i] != c
}

/// A text has at least one piece.
pub proof fn lemma_split_is_not_empty(text: Seq<char>, sep: char)
    ensures
        split(text, sep).len() > 0,
    decreases text.len(),
{
    if text.len() > 0 {
        lemma_split_is_not_empty(text.drop_last(), sep);
    }
}

/// A text without separators that follows another makes its last piece
/// longer.
pub proof fn lemma_split_of_more(a: Seq<char>, b: Seq<char>, sep: char)
    requires
        free_of(b, sep),
    ensures
        split(a + b, sep).len() == split(a, sep).len(),
        split(a + b, sep) == split(a, sep).update(
            split(a, sep).len() - 1,
            split(a, sep).last() + b,
        ),
    decreases b.len(),
{
    lemma_split_is_not_empty(a, sep);
    if b.len() > 0 {
        let shorter = b.drop_last();
        lemma_split_of_more(a, shorter, sep);
        assert((a + b).drop_last() =~= a + shorter);
        let pieces = split(a, sep);
        assert((pieces.last() + shorter).push(b.last()) =~= pieces.last() + b);
    }
}

/// A separator and a text without separators that follow another text make
/// one more piece.
pub proof fn lemma_split_of_one_more(a: Seq<char>, b: Seq<char>, sep: char)
    requires
        free_of(b, sep),
    ensures
        split(a + seq![sep] + b, sep) == split(a, sep).push(b),
{
    let cut = a + seq![sep];
    assert(cut.drop_last() =~= a);
    lemma_split_of_more(cut, b, sep);
}

/// Texts without commas that are joined with commas are the pieces of what
/// they make.
pub proof fn lemma_split_of_joined(cells: Seq<Seq<char>>)
    requires
        cells.len() > 0,
        forall|j: int| 0 <= j < cells.len() ==> free_of(#[trigger] cells[j], ','),
    ensures
        split(joined(cells, ","@), ',') == cells,
    decreases cells.len(),
{
    reveal_strlit(",");
    assert(","@ =~= seq![',']);
    if cells.len() == 1 {
        lemma_split_of_more(Seq::empty(), cells[0], ',');
    } else {
        let before = cells.drop_last();
        lemma_split_of_joined(before);
        lemma_split_of_one_more(joined(before, ","@), cells.last(), ',');
    }
}

/// Texts without line feeds that are joined with commas make a text
/// without line feeds.
pub proof fn lemma_joined_is_free_of_line_feeds(cells: Seq<Seq<char>>)
    requires
        forall|j: int| 0 <= j < cells.len() ==> free_of(#[trigger] cells[j], '\n'),
    ensures
        free_of(joined(cells, ","@), '\n'),
    decreases cells.len(),
{
    reveal_strlit(",");
    if cells.len() > 1 {
        lemma_joined_is_free_of_line_feeds(cells.drop_last());
    }
}

impl RecordBatch {
    /// Whether no text of the batch holds a comma or a line feed.
    pub open spec fn plain(&self) -> bool {
        forall|i: int, j: int|
            0 <= i < self.rows() && 0 <= j < self.fields@.len() ==> free_of(
                #[trigger] self.row_cells(i)[j],
                ',',
            ) && free_of(self.row_cells(i)[j], '\n')
    }

    /// The lines of the first `n` rows hold one piece for each row, the
    /// joined texts of the row, and an empty piece after the last line
    /// feed.
    pub proof fn lemma_lines_split(&self, n: nat)
        requires
            n <= self.rows(),
            self.plain(),
        ensures
            split(self.lines(n), '\n') == Seq::new(
                n,
                |i: int| joined(self.row_cells(i), ","@),
            ).push(Seq::empty()),
        decreases n,
    {
        reveal_strlit("\n");
        if n > 0 {
            self.lemma_lines_split((n - 1) as nat);
            let row = joined(self.row_cells(n - 1), ","@);
            lemma_joined_is_free_of_line_feeds(self.row_cells(n - 1));
            lemma_split_of_more(self.lines((n - 1) as nat), row, '\n');
            let with_row = self.lines((n - 1) as nat) + row;
            let whole = with_row + seq!['\n'];
            assert(whole.drop_last() =~= with_row);
            assert(self.lines(n) =~= whole);
        }
    }

    /// What a batch prints can be read back: where the batch has a column,
    /// every value has a text, and no text holds a comma or a line feed,
    /// the records of its lines are its rows, text by text.
    pub proof fn theorem_lines_read_back(&self)
        requires
            self.fields@.len() > 0,
            self.printable(),
            self.plain(),
        ensures
            records(self.lines(self.rows())) == Seq::new(
                self.rows(),
                |i: int| self.row_cells(i),
            ),
    {
        self.lemma_lines_split(self.rows());
        let pieces = Seq::new(self.rows(), |i: int| joined(self.row_cells(i), ","@));
        assert forall|i: int| 0 <= i < self.rows() implies split(#[trigger] pieces[i], ',')
            == self.row_cells(i) by {
            lemma_split_of_joined(self.row_cells(i));
        }
    }
}

} // verus!
