//! Frames: tabular views of delimited text.
//!
//! A `DataFrame` parses a sequence of raw lines into a header (the first
//! line split on the comma delimiter) and rows (every remaining line split
//! the same way), exposing the row count `len` and column count `width`.
//! Splitting is a literal single-character split with no quoting or
//! escaping, and a row's cell count is not required to match the header's.
//!
//! Example:
//! | a | b | c |
//! | 1 | 2 | 3 |
//! | 4 | 5 | 6 |
use vstd::prelude::*;

use crate::text::join_with;
use crate::text::lemma_split_join;
use crate::text::split_on;
use crate::text::split_text;
use crate::text::str_views;

verus! {

/// The views of a sequence of rows of owned strings.
pub open spec fn row_views(v: Seq<Vec<String>>) -> Seq<Seq<Seq<char>>> {
    v.map_values(|r: Vec<String>| str_views(r@))
}

/// The header a sequence of lines parses to: the first line split on the
/// delimiter, or no columns at all when there are no lines.
pub open spec fn table_header(lines: Seq<Seq<char>>) -> Seq<Seq<char>> {
    if lines.len() == 0 {
        Seq::<Seq<char>>::empty()
    } else {
        split_text(lines[0], ',')
    }
}

/// The rows a sequence of lines parses to: every line after the first,
/// each split on the delimiter.
pub open spec fn table_rows(lines: Seq<Seq<char>>) -> Seq<Seq<Seq<char>>> {
    if lines.len() == 0 {
        Seq::<Seq<Seq<char>>>::empty()
    } else {
        lines.subrange(1, lines.len() as int).map_values(|l: Seq<char>| split_text(l, ','))
    }
}

/// The lines a table with the given header and rows serializes to: each
/// cell sequence joined with the comma delimiter, the header line first.
pub open spec fn table_lines(header: Seq<Seq<char>>, rows: Seq<Seq<Seq<char>>>) -> Seq<Seq<char>> {
    seq![join_with(header, ',')] + rows.map_values(|r: Seq<Seq<char>>| join_with(r, ','))
}

/// Round trip: a table with at least one header cell and at least one cell
/// in every row, no cell containing the delimiter, serialized to
/// comma-joined lines and parsed again, reproduces the header and the rows
/// exactly.
pub proof fn lemma_table_round_trip(header: Seq<Seq<char>>, rows: Seq<Seq<Seq<char>>>)
    requires
        header.len() >= 1,
        forall|i: int| 0 <= i < header.len() ==> !(#[trigger] header[i]).contains(','),
        forall|i: int| 0 <= i < rows.len() ==> (#[trigger] rows[i]).len() >= 1,
        forall|i: int, j: int| 0 <= i < rows.len() && 0 <= j < rows[i].len() ==> !(
        #[trigger] rows[i][j]).contains(','),
    ensures
        table_header(table_lines(header, rows)) == header,
        table_rows(table_lines(header, rows)) == rows,
{
    let lines = table_lines(header, rows);
    assert(lines[0] == join_with(header, ','));
    lemma_split_join(header, ',');

    let joined = rows.map_values(|r: Seq<Seq<char>>| join_with(r, ','));
    assert(lines.subrange(1, lines.len() as int) =~= joined);
    assert forall|i: int| 0 <= i < rows.len() implies #[trigger] table_rows(lines)[i]
        == rows[i] by {
        assert(joined[i] == join_with(rows[i], ','));
        lemma_split_join(rows[i], ',');
    }
    assert(table_rows(lines) =~~= rows);
}

/// A parsed table: a header row, data rows, and their counts.
#[derive(Debug)]
pub struct DataFrame {
    pub header: Vec<String>,
    pub rows: Vec<Vec<String>>,
    /// Count of rows.
    pub len: usize,
    /// Count of columns.
    pub width: usize,
}

impl DataFrame {
    /// The counts agree with the parsed header and rows.
    pub open spec fn wf(self) -> bool {
        self.len == self.rows@.len() && self.width == self.header@.len()
    }

    /// The frame is exactly what `lines` parses to.
    pub open spec fn parses(self, lines: Seq<Seq<char>>) -> bool {
        &&& self.wf()
        &&& str_views(self.header@) == table_header(lines)
        &&& row_views(self.rows@) == table_rows(lines)
    }

    /// Parses raw lines into a frame: the first line becomes the header,
    /// every remaining line a row, each split on the comma delimiter. No
    /// lines at all yield an empty frame.
    pub fn new(data: &Vec<String>) -> (r: DataFrame)
        ensures
            r.parses(str_views(data@)),
    {
        let mut rows: Vec<Vec<String>> = Vec::new();

        if data.len() < 1 {
            proof {
                assert(str_views(data@) =~= Seq::<Seq<char>>::empty());
                assert(str_views(Seq::<String>::empty()) =~= Seq::<Seq<char>>::empty());
                assert(row_views(rows@) =~= Seq::<Seq<Seq<char>>>::empty());
            }
            return DataFrame { header: Vec::new(), rows, len: 0, width: 0 };
        }

        let ghost lines = str_views(data@);
        let header: Vec<String> = split_on(data[0].as_str(), ',');

        let mut i: usize = 1;
        while i < data.len()
            invariant
                1 <= i <= data@.len(),
                lines == str_views(data@),
                row_views(rows@) == lines.subrange(1, i as int).map_values(
                    |l: Seq<char>| split_text(l, ','),
                ),
            decreases data@.len() - i,
        {
            let row: Vec<String> = split_on(data[i].as_str(), ',');
            proof {
                assert(lines.subrange(1, i + 1).drop_last() =~= lines.subrange(1, i as int));
                assert(lines.subrange(1, i + 1).last() == lines[i as int]);
                assert(row_views(rows@.push(row)) =~~= row_views(rows@).push(str_views(row@)));
                assert(lines.subrange(1, i + 1).map_values(|l: Seq<char>| split_text(l, ','))
                    =~~= lines.subrange(1, i as int).map_values(|l: Seq<char>| split_text(l, ','))
                    .push(split_text(lines[i as int], ',')));
            }
            rows.push(row);
            i = i + 1;
        }

        proof {
            assert(lines.subrange(1, data@.len() as int) =~= lines.subrange(
                1,
                i as int,
            ));
        }
        let len = rows.len();
        let width = header.len();

        DataFrame { header, rows, len, width }
    }

    /// Read-only projection of the header.
    pub fn get_header(&self) -> (r: &Vec<String>)
        ensures
            r@ == self.header@,
    {
        &self.header
    }

    /// Read-only projection of the rows.
    pub fn get_rows(&self) -> (r: &Vec<Vec<String>>)
        ensures
            r@ == self.rows@,
    {
        &self.rows
    }
}

} // verus!
