//! Building a decision table from comma-separated text.
//!
//! A row's index becomes the second value of the key, a field's index in its
//! row the dealer's up-card. A key holds two bytes, so a field whose row or
//! column index is above 255 has no key: a text with such a field is
//! rejected, and no field ever takes the place of another.

use vstd::prelude::*;

use crate::decision::{cell_code, parse_decision};
use crate::table::DecisionTable;

verus! {

/// The rows of a text as read: the fields of each row, or `None` for a row
/// that could not be read.
pub type Rows = Seq<Option<Seq<Seq<char>>>>;

/// The highest row or column index that a key can hold.
pub const LAST_INDEX: usize = 255;

/// Why a text is not a decision table.
#[derive(Clone, Copy, Debug, PartialEq, Eq, Structural)]
pub enum LoadError {
    /// The row with this index could not be read as delimited text.
    MalformedRow { row: usize },
    /// The field at this row and column is not a decision code.
    InvalidCode { row: usize, column: usize },
    /// The field at this row and column has no key: its row index or its
    /// column index is above 255.
    OutOfRange { row: usize, column: usize },
}

/// Row `i` and column `j` both fit in a key.
pub open spec fn in_range(i: int, j: int) -> bool {
    i <= LAST_INDEX && j <= LAST_INDEX
}

/// The field at row `i`, column `j` can be stored: its place fits in a key
/// and it spells a decision code.
pub open spec fn cell_is_clean(i: int, j: int, field: Seq<char>) -> bool {
    in_range(i, j) && cell_code(field) is Some
}

/// The first `n` fields of row `i` can be stored.
pub open spec fn fields_are_clean(i: int, fields: Seq<Seq<char>>, n: int) -> bool {
    forall|j: int| 0 <= j < n ==> cell_is_clean(i, j, #[trigger] fields[j])
}

/// Row `i` was read and all its fields can be stored.
pub open spec fn row_is_clean(rows: Rows, i: int) -> bool {
    rows[i] is Some && fields_are_clean(i, rows[i]->0, rows[i]->0.len() as int)
}

/// The first `n` rows are clean.
pub open spec fn rows_are_clean(rows: Rows, n: int) -> bool {
    forall|i: int| 0 <= i < n ==> #[trigger] row_is_clean(rows, i)
}

/// Every row is clean.
pub open spec fn all_clean(rows: Rows) -> bool {
    rows_are_clean(rows, rows.len() as int)
}

/// `e` names the first thing wrong with `rows`, in reading order. All rows
/// before the named one are clean. Either that row could not be read; or
/// all its fields before the named column can be stored and the field
/// there cannot, because its place has no key or, where it has one,
/// because the field spells no code.
pub open spec fn is_first_fault(rows: Rows, e: LoadError) -> bool {
    match e {
        LoadError::MalformedRow { row } => {
            &&& row < rows.len()
            &&& rows[row as int] is None
            &&& rows_are_clean(rows, row as int)
        },
        LoadError::OutOfRange { row, column } => {
            &&& row < rows.len()
            &&& rows[row as int] is Some
            &&& column < rows[row as int]->0.len()
            &&& !in_range(row as int, column as int)
            &&& fields_are_clean(row as int, rows[row as int]->0, column as int)
            &&& rows_are_clean(rows, row as int)
        },
        LoadError::InvalidCode { row, column } => {
            &&& row < rows.len()
            &&& rows[row as int] is Some
            &&& column < rows[row as int]->0.len()
            &&& in_range(row as int, column as int)
            &&& cell_code(rows[row as int]->0[column as int]) is None
            &&& fields_are_clean(row as int, rows[row as int]->0, column as int)
            &&& rows_are_clean(rows, row as int)
        },
    }
}

/// There is a field at row `i`, column `j`.
pub open spec fn has_field(rows: Rows, i: int, j: int) -> bool {
    &&& 0 <= i < rows.len()
    &&& rows[i] is Some
    &&& 0 <= j < rows[i]->0.len()
}

/// `m` is the table that `rows` spell: it has one cell for every field,
/// under the field's column and row, with the field's code, and no other
/// cell.
pub open spec fn is_table_of(m: Map<(u8, u8), char>, rows: Rows) -> bool {
    forall|key: (u8, u8)|
        {
            &&& #[trigger] m.contains_key(key) <==> has_field(rows, key.1 as int, key.0 as int)
            &&& m.contains_key(key) ==> Some(m[key]) == cell_code(
                rows[key.1 as int]->0[key.0 as int],
            )
        }
}

/// `m` holds the cells of the fields that come before row `row_end`,
/// column `col_end` in reading order, and no other cell.
spec fn is_filled_to(m: Map<(u8, u8), char>, rows: Rows, row_end: int, col_end: int) -> bool {
    forall|key: (u8, u8)|
        {
            &&& #[trigger] m.contains_key(key) <==> {
                &&& has_field(rows, key.1 as int, key.0 as int)
                &&& key.1 < row_end || (key.1 == row_end && key.0 < col_end)
            }
            &&& m.contains_key(key) ==> Some(m[key]) == cell_code(
                rows[key.1 as int]->0[key.0 as int],
            )
        }
}

/// Builds the table that `rows` spell, or names the first fault in them.
///
/// The result is a table exactly when every row was read and every field
/// has a key and spells a decision code; the empty list gives the empty
/// table.
pub fn table_from_records(rows: &Vec<Option<Vec<String>>>) -> (loaded: Result<
    DecisionTable,
    LoadError,
>)
    ensures
        match loaded {
            Ok(table) => {
                &&& all_clean(rows.deep_view())
                &&& table.wf()
                &&& is_table_of(table@, rows.deep_view())
            },
            Err(e) => is_first_fault(rows.deep_view(), e),
        },
{
    let ghost spelt = rows.deep_view();
    let mut table = DecisionTable::new();
    let mut i: usize = 0;
    while i < rows.len()
        invariant
            i <= rows.len(),
            spelt == rows.deep_view(),
            table.wf(),
            is_filled_to(table@, spelt, i as int, 0),
            rows_are_clean(spelt, i as int),
        decreases rows.len() - i,
    {
        match &rows[i] {
            None => {
                return Err(LoadError::MalformedRow { row: i });
            },
            Some(fields) => {
                assert(spelt[i as int] == Some(fields.deep_view()));
                let mut j: usize = 0;
                while j < fields.len()
                    invariant
                        i < rows.len(),
                        j <= fields.len(),
                        spelt == rows.deep_view(),
                        spelt[i as int] == Some(fields.deep_view()),
                        table.wf(),
                        is_filled_to(table@, spelt, i as int, j as int),
                        rows_are_clean(spelt, i as int),
                        fields_are_clean(i as int, fields.deep_view(), j as int),
                    decreases fields.len() - j,
                {
                    assert(fields.deep_view()[j as int] == fields[j as int]@);
                    if i > LAST_INDEX || j > LAST_INDEX {
                        return Err(LoadError::OutOfRange { row: i, column: j });
                    }
                    match parse_decision(fields[j].as_str()) {
                        None => {
                            return Err(LoadError::InvalidCode { row: i, column: j });
                        },
                        Some(code) => {
                            table.insert(j as u8, i as u8, code);
                        },
                    }
                    j += 1;
                }
                assert(row_is_clean(spelt, i as int));
            },
        }
        i += 1;
    }
    Ok(table)
}

/// The records that the `csv` crate reads from `data` when the text has no
/// header row and all other settings are the crate's defaults: one entry
/// per record in the order read, `None` where the reader reports an error
/// for the record.
pub uninterp spec fn csv_records(data: Seq<char>) -> Seq<Option<Seq<Seq<char>>>>;

/// Runs `csv::ReaderBuilder::new().has_headers(false).from_reader(..)` over
/// the bytes of `data` and walks `Reader::records` to its end. Each record
/// is copied field by field into strings; a record for which the reader
/// returns an error becomes `None`. The contract only gives the outcome
/// its name: nothing is claimed of how the reader splits the text.
#[verifier::external_body]
fn read_records(data: &str) -> (rows: Vec<Option<Vec<String>>>)
    ensures
        rows.deep_view() == csv_records(data@),
{
    let mut reader = csv::ReaderBuilder::new().has_headers(false).from_reader(data.as_bytes());
    let rows = reader.records().map(
        |row| row.ok().map(|record| record.iter().map(String::from).collect()),
    ).collect();
    rows
}

/// Reads a decision table from comma-separated text without a header row.
///
/// The text is split into records by the `csv` crate; the table is then
/// built from them as [`table_from_records`] does.
pub fn load_strategy_table(data: &str) -> (loaded: Result<DecisionTable, LoadError>)
    ensures
        match loaded {
            Ok(table) => {
                &&& all_clean(csv_records(data@))
                &&& table.wf()
                &&& is_table_of(table@, csv_records(data@))
            },
            Err(e) => is_first_fault(csv_records(data@), e),
        },
{
    let rows = read_records(data);
    table_from_records(&rows)
}

/// Rows spell one table only: two maps that are both the table of `rows`
/// are the same map.
pub proof fn lemma_table_is_determined(
    m1: Map<(u8, u8), char>,
    m2: Map<(u8, u8), char>,
    rows: Rows,
)
    requires
        is_table_of(m1, rows),
        is_table_of(m2, rows),
    ensures
        m1 == m2,
{
    assert forall|key: (u8, u8)| m1.contains_key(key) implies m1[key] == m2[key] by {
        assert(m2.contains_key(key));
    }
    assert(m1 =~= m2);
}

/// Clean rows fit in a table: no row has more than 256 fields, and a row
/// after the first 256 has none.
pub proof fn lemma_clean_rows_fit(rows: Rows)
    requires
        all_clean(rows),
    ensures
        forall|i: int|
            0 <= i < rows.len() ==> {
                &&& (#[trigger] rows[i]) is Some
                &&& rows[i]->0.len() <= LAST_INDEX + 1
                &&& i > LAST_INDEX ==> rows[i]->0.len() == 0
            },
{
    assert forall|i: int| 0 <= i < rows.len() implies {
        &&& (#[trigger] rows[i]) is Some
        &&& rows[i]->0.len() <= LAST_INDEX + 1
        &&& i > LAST_INDEX ==> rows[i]->0.len() == 0
    } by {
        assert(row_is_clean(rows, i));
        let fields = rows[i]->0;
        if fields.len() > LAST_INDEX + 1 {
            assert(cell_is_clean(i, LAST_INDEX + 1, fields[LAST_INDEX + 1]));
        }
        if i > LAST_INDEX && fields.len() > 0 {
            assert(cell_is_clean(i, 0, fields[0]));
        }
    }
}

/// The table of clean rows has a cell of its own for every field: the
/// field at row `i`, column `j` is stored under `(j, i)` with its code, and
/// no other field is stored under that key.
pub proof fn lemma_every_field_has_its_cell(m: Map<(u8, u8), char>, rows: Rows, i: int, j: int)
    requires
        all_clean(rows),
        is_table_of(m, rows),
        has_field(rows, i, j),
    ensures
        in_range(i, j),
        m.contains_key((j as u8, i as u8)),
        Some(m[(j as u8, i as u8)]) == cell_code(rows[i]->0[j]),
        forall|i2: int, j2: int|
            #[trigger] has_field(rows, i2, j2) && (j2 as u8, i2 as u8) == (j as u8, i as u8) ==> i2
                == i && j2 == j,
{
    assert(row_is_clean(rows, i));
    assert(cell_is_clean(i, j, rows[i]->0[j]));
    let key = (j as u8, i as u8);
    assert(has_field(rows, key.1 as int, key.0 as int));
    assert(m.contains_key(key));
    assert forall|i2: int, j2: int|
        #[trigger] has_field(rows, i2, j2) && (j2 as u8, i2 as u8) == key implies i2 == i && j2
        == j by {
        assert(row_is_clean(rows, i2));
        assert(cell_is_clean(i2, j2, rows[i2]->0[j2]));
    }
}

/// One more row adds the cells of its fields and changes nothing else: the
/// table of the longer list holds every cell of the table of the shorter
/// one as it was, and besides them one cell for each field of the new row,
/// under the field's column and the new row's index.
pub proof fn lemma_row_adds_its_cells(
    before: Map<(u8, u8), char>,
    after: Map<(u8, u8), char>,
    rows: Rows,
    fields: Seq<Seq<char>>,
)
    requires
        all_clean(rows.push(Some(fields))),
        is_table_of(before, rows),
        is_table_of(after, rows.push(Some(fields))),
    ensures
        forall|key: (u8, u8)| #[trigger]
            before.contains_key(key) ==> after.contains_key(key) && after[key] == before[key],
        forall|key: (u8, u8)| #[trigger]
            after.contains_key(key) <==> before.contains_key(key) || (key.1 == rows.len() && key.0
                < fields.len()),
        forall|key: (u8, u8)|
            key.1 == rows.len() && key.0 < fields.len() ==> Some(#[trigger] after[key])
                == cell_code(fields[key.0 as int]),
{
    let longer = rows.push(Some(fields));
    assert forall|key: (u8, u8)| #[trigger] before.contains_key(key) implies after.contains_key(
        key,
    ) && after[key] == before[key] by {
        assert(has_field(longer, key.1 as int, key.0 as int));
        assert(longer[key.1 as int] == rows[key.1 as int]);
    }
    assert forall|key: (u8, u8)| #[trigger]
        after.contains_key(key) <==> before.contains_key(key) || (key.1 == rows.len() && key.0
            < fields.len()) by {
        if key.1 < rows.len() {
            assert(longer[key.1 as int] == rows[key.1 as int]);
        }
        if key.1 == rows.len() && key.0 < fields.len() {
            assert(has_field(longer, key.1 as int, key.0 as int));
        }
    }
    assert forall|key: (u8, u8)| key.1 == rows.len() && key.0 < fields.len() implies Some(
        #[trigger] after[key],
    ) == cell_code(fields[key.0 as int]) by {
        assert(has_field(longer, key.1 as int, key.0 as int));
        assert(after.contains_key(key));
    }
}

} // verus!
