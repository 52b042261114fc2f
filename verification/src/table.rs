//! Layout of the results as a table.
//!
//! The table has the columns Month, Metric and Data. This module decides
//! what each row holds; drawing the rows is left to `prettytable`.

use vstd::prelude::*;
use vstd::string::StringExecFns;
use crate::dispatch::results_view;
use crate::metric::{lemma_canonical_name_is_snake_case, Metric};
use crate::text::optional_text;

verus! {

/// What the Month column shows: the month filter, or `ALL MONTH` where there
/// is none.
pub open spec fn month_column(month: Option<Seq<char>>) -> Seq<char> {
    match month {
        Some(month) => month,
        None => "ALL MONTH"@,
    }
}

/// The first row of the table.
pub open spec fn header_row() -> Seq<Seq<char>> {
    seq!["Month"@, "Metric"@, "Data"@]
}

/// The row of one result.
pub open spec fn result_row(result: (Metric, Seq<char>), month: Option<Seq<char>>) -> Seq<
    Seq<char>,
> {
    seq![month_column(month), result.0.canonical_name(), result.1]
}

/// The rows of the table for `results`: the header, then one row per result
/// in the order of the results.
pub open spec fn rows_of(results: Seq<(Metric, Seq<char>)>, month: Option<Seq<char>>) -> Seq<
    Seq<Seq<char>>,
> {
    seq![header_row()] + Seq::new(results.len(), |i: int| result_row(results[i], month))
}

/// The characters of each cell of a row.
pub open spec fn row_view(row: Seq<String>) -> Seq<Seq<char>> {
    Seq::new(row.len(), |i: int| row[i]@)
}

/// The characters of each cell of each row.
pub open spec fn rows_view(rows: Seq<Vec<String>>) -> Seq<Seq<Seq<char>>> {
    Seq::new(rows.len(), |i: int| row_view(rows[i]@))
}

/// A row of three cells.
fn row_of(first: String, second: String, third: String) -> (row: Vec<String>)
    ensures
        row_view(row@) == seq![first@, second@, third@],
{
    let mut row: Vec<String> = Vec::new();
    row.push(first);
    row.push(second);
    row.push(third);
    assert(row_view(row@) =~= seq![first@, second@, third@]);
    row
}

/// The rows of the table for `results`.
pub fn table_rows(results: &Vec<(Metric, String)>, month: Option<&str>) -> (rows: Vec<Vec<String>>)
    ensures
        rows_view(rows@) == rows_of(results_view(results@), optional_text(month)),
{
    let label = match month {
        Some(month) => String::from_str(month),
        None => String::from_str("ALL MONTH"),
    };
    let mut rows: Vec<Vec<String>> = Vec::new();
    rows.push(
        row_of(String::from_str("Month"), String::from_str("Metric"), String::from_str("Data")),
    );
    let mut i: usize = 0;
    while i < results.len()
        invariant
            i <= results.len(),
            label@ == month_column(optional_text(month)),
            rows@.len() == i + 1,
            row_view(rows@[0]@) == header_row(),
            forall|j: int|
                1 <= j <= i ==> row_view(#[trigger] rows@[j]@) == result_row(
                    results_view(results@)[j - 1],
                    optional_text(month),
                ),
        decreases results.len() - i,
    {
        let row = row_of(label.clone(), results[i].0.to_string(), results[i].1.clone());
        rows.push(row);
        i = i + 1;
    }
    assert forall|j: int| 0 <= j < rows@.len() implies rows_view(rows@)[j] == rows_of(
        results_view(results@),
        optional_text(month),
    )[j] by {
        if j > 0 {
            assert(row_view(rows@[j]@) == result_row(
                results_view(results@)[j - 1],
                optional_text(month),
            ));
        }
    }
    assert(rows_view(rows@) =~= rows_of(results_view(results@), optional_text(month)));
    rows
}

/// Whether `text` holds no escape character. An escape character starts a
/// terminal control sequence, whose width `prettytable` reckons apart from
/// the rest of the text; a text without one is always drawn.
pub open spec fn free_of_escape(text: Seq<char>) -> bool {
    forall|i: int| 0 <= i < text.len() ==> #[trigger] text[i] != '\u{1b}'
}

/// Whether every cell of a row can be drawn.
pub open spec fn drawable_row(row: Seq<Seq<char>>) -> bool {
    forall|i: int| 0 <= i < row.len() ==> free_of_escape(#[trigger] row[i])
}

/// Whether every cell of every row can be drawn.
pub open spec fn drawable(rows: Seq<Seq<Seq<char>>>) -> bool {
    forall|i: int| 0 <= i < rows.len() ==> drawable_row(#[trigger] rows[i])
}

/// Whether `text` holds no escape character.
pub fn is_free_of_escape(text: &str) -> (free: bool)
    ensures
        free == free_of_escape(text@),
{
    let mut free = true;
    for c in it: text.chars()
        invariant
            it.seq() == text@,
            free == free_of_escape(text@.take(it.index())),
    {
        proof {
            let before = text@.take(it.index());
            let after = text@.take(it.index() + 1);
            assert(after =~= before.push(c));
            assert(after[it.index()] == c);
            assert forall|i: int| 0 <= i < before.len() implies before[i] == after[i] by {}
        }
        if c == '\u{1b}' {
            free = false;
        }
    }
    assert(text@.take(text@.len() as int) =~= text@);
    free
}

/// Whether every cell of every row can be drawn.
pub fn is_drawable(rows: &Vec<Vec<String>>) -> (ok: bool)
    ensures
        ok == drawable(rows_view(rows@)),
{
    let mut i: usize = 0;
    while i < rows.len()
        invariant
            i <= rows.len(),
            forall|k: int| 0 <= k < i ==> drawable_row(#[trigger] rows_view(rows@)[k]),
        decreases rows.len() - i,
    {
        let row = &rows[i];
        let mut j: usize = 0;
        while j < row.len()
            invariant
                j <= row.len(),
                i < rows.len(),
                row@ == rows@[i as int]@,
                forall|k: int| 0 <= k < j ==> free_of_escape(#[trigger] row_view(row@)[k]),
            decreases row.len() - j,
        {
            if !is_free_of_escape(row[j].as_str()) {
                assert(!free_of_escape(row_view(row@)[j as int]));
                assert(!drawable_row(rows_view(rows@)[i as int]));
                return false;
            }
            assert(free_of_escape(row_view(row@)[j as int]));
            j = j + 1;
        }
        assert(drawable_row(rows_view(rows@)[i as int]));
        i = i + 1;
    }
    true
}

/// The table of `results` can be drawn when neither the month nor the data
/// of any result holds an escape character.
pub proof fn lemma_results_are_drawable(results: Seq<(Metric, Seq<char>)>, month: Option<Seq<char>>)
    requires
        month matches Some(month) ==> free_of_escape(month),
        forall|i: int| 0 <= i < results.len() ==> free_of_escape((#[trigger] results[i]).1),
    ensures
        drawable(rows_of(results, month)),
{
    reveal_strlit("Month");
    reveal_strlit("Metric");
    reveal_strlit("Data");
    reveal_strlit("ALL MONTH");
    let rows = rows_of(results, month);
    assert forall|i: int| 0 <= i < rows.len() implies drawable_row(#[trigger] rows[i]) by {
        if i > 0 {
            let result = results[i - 1];
            assert(rows[i] == result_row(result, month));
            lemma_canonical_name_is_snake_case(result.0);
            assert(free_of_escape(month_column(month)));
            assert(free_of_escape(result.0.canonical_name()));
            assert(free_of_escape(result.1));
        } else {
            assert(rows[i] == header_row());
        }
    }
}

/// `prettytable::Table`, seen only through the names and wrappers below.
#[verifier::external_type_specification]
#[verifier::external_body]
pub struct ExTable(prettytable::Table);

/// What `Cell::new` keeps of a text: its lines, as `str::lines` splits them.
pub uninterp spec fn kept_lines(text: Seq<char>) -> Seq<Seq<char>>;

/// What a row of cells keeps of the texts it is made from.
pub open spec fn kept_row(row: Seq<Seq<char>>) -> Seq<Seq<Seq<char>>> {
    Seq::new(row.len(), |i: int| kept_lines(row[i]))
}

/// What the rows of a table keep of the texts they are made from.
pub open spec fn kept_rows(rows: Seq<Seq<Seq<char>>>) -> Seq<Seq<Seq<Seq<char>>>> {
    Seq::new(rows.len(), |i: int| kept_row(rows[i]))
}

/// The rows that a table holds: for each cell of each row, its lines.
pub uninterp spec fn table_contents(table: prettytable::Table) -> Seq<Seq<Seq<Seq<char>>>>;

/// Whether a table is drawn with box characters.
pub uninterp spec fn is_boxed(table: prettytable::Table) -> bool;

/// Whether a table has no title row and every cell of it is as `Cell::new`
/// makes it: one column wide, aligned to the left, without style.
pub uninterp spec fn is_plain(table: prettytable::Table) -> bool;

/// The text that `prettytable` draws for a plain table of these rows in its
/// box format: borders and separators of box-drawing characters, one space
/// of padding, every column as wide as its widest line.
pub uninterp spec fn boxed_text(rows: Seq<Seq<Seq<Seq<char>>>>) -> Seq<char>;

/// `Table::new`: a table without rows and without a title row.
#[verifier::external_body]
fn new_table() -> (table: prettytable::Table)
    ensures
        table_contents(table) == Seq::<Seq<Seq<Seq<char>>>>::empty(),
        is_plain(table),
{
    prettytable::Table::new()
}

/// `Table::set_format` with `FORMAT_BOX_CHARS`: the rows and the title row
/// stay as they are, the table is drawn with box characters from now on.
#[verifier::external_body]
fn set_box_format(table: &mut prettytable::Table)
    ensures
        table_contents(*final(table)) == table_contents(*old(table)),
        is_plain(*final(table)) == is_plain(*old(table)),
        is_boxed(*final(table)),
{
    table.set_format(*prettytable::format::consts::FORMAT_BOX_CHARS);
}

/// `Table::add_row` with a row of one `Cell::new` per text: the row is
/// appended, each cell keeping the lines of its text; the format and the
/// title row stay as they are. `Cell::new` measures the text, and its
/// reckoning is only sure to succeed on a text without an escape character.
#[verifier::external_body]
fn add_row(table: &mut prettytable::Table, cells: &Vec<String>)
    requires
        drawable_row(row_view(cells@)),
    ensures
        table_contents(*final(table)) == table_contents(*old(table)).push(
            Seq::new(cells@.len(), |i: int| kept_lines(cells@[i]@)),
        ),
        is_boxed(*final(table)) == is_boxed(*old(table)),
        is_plain(*final(table)) == is_plain(*old(table)),
{
    let cells = cells.iter().map(|cell| prettytable::Cell::new(cell)).collect();
    table.add_row(prettytable::Row::new(cells));
}

/// `Table::to_string`: the drawing of the table, which for a plain table in
/// the box format depends on the lines of its cells alone.
#[verifier::external_body]
fn table_text(table: &prettytable::Table) -> (text: String)
    requires
        is_boxed(*table),
        is_plain(*table),
    ensures
        text@ == boxed_text(table_contents(*table)),
{
    table.to_string()
}

/// Draws `rows` as a table with box characters.
///
/// No cell may hold an escape character; [`is_drawable`] tests this.
pub fn render_rows(rows: &Vec<Vec<String>>) -> (text: String)
    requires
        drawable(rows_view(rows@)),
    ensures
        text@ == boxed_text(kept_rows(rows_view(rows@))),
{
    let mut table = new_table();
    set_box_format(&mut table);
    let mut i: usize = 0;
    while i < rows.len()
        invariant
            i <= rows.len(),
            drawable(rows_view(rows@)),
            is_boxed(table),
            is_plain(table),
            table_contents(table) == kept_rows(rows_view(rows@)).take(i as int),
        decreases rows.len() - i,
    {
        assert(drawable_row(rows_view(rows@)[i as int]));
        add_row(&mut table, &rows[i]);
        assert(kept_rows(rows_view(rows@)).take(i + 1) =~= kept_rows(rows_view(rows@)).take(
            i as int,
        ).push(kept_row(row_view(rows@[i as int]@)))) by {
            assert(kept_rows(rows_view(rows@))[i as int] == kept_row(rows_view(rows@)[i as int]));
        }
        assert(kept_row(row_view(rows@[i as int]@)) =~= Seq::new(
            rows@[i as int]@.len(),
            |k: int| kept_lines(rows@[i as int]@[k]@),
        ));
        i = i + 1;
    }
    assert(kept_rows(rows_view(rows@)).take(rows@.len() as int) =~= kept_rows(rows_view(rows@)));
    table_text(&table)
}

/// Draws the table of `results`: a header and one row per result, in the
/// order of the results.
///
/// Neither the month nor the data of a result may hold an escape character;
/// [`table_rows`] and [`is_drawable`] together test this.
pub fn render_table(results: &Vec<(Metric, String)>, month: Option<&str>) -> (text: String)
    requires
        drawable(rows_of(results_view(results@), optional_text(month))),
    ensures
        text@ == boxed_text(kept_rows(rows_of(results_view(results@), optional_text(month)))),
{
    let rows = table_rows(results, month);
    render_rows(&rows)
}

} // verus!
