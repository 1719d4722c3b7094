//! Where each row, column and cell operation puts every cell and header,
//! stated index by index.

use vstd::prelude::*;
use crate::cell::{Cell, CellView};
use crate::laws::plain_cell;
use crate::table::{matrix_view, row_view, strings_view, texts, TableView};

verus! {

/// The plain values of a matrix, a row, strings and string slices are
/// those of their elements, in the same order.
pub proof fn law_views(m: Seq<Vec<Cell>>, r: Seq<Cell>, s: Seq<String>, v: Seq<&str>)
    ensures
        matrix_view(m).len() == m.len(),
        forall|i: int| 0 <= i < m.len() ==> #[trigger] matrix_view(m)[i] == row_view(m[i]@),
        row_view(r).len() == r.len(),
        forall|j: int| 0 <= j < r.len() ==> #[trigger] row_view(r)[j] == r[j]@,
        strings_view(s).len() == s.len(),
        forall|i: int| 0 <= i < s.len() ==> #[trigger] strings_view(s)[i] == s[i]@,
        texts(v).len() == v.len(),
        forall|i: int| 0 <= i < v.len() ==> #[trigger] texts(v)[i] == v[i]@,
{
}

/// Replacing one cell puts the new value at that place and leaves every
/// other cell, the headers and the options as they were.
pub proof fn law_replace_cell(t: TableView, row: int, col: int, c: CellView)
    requires
        t.well_formed(),
        t.has_cell(row, col),
    ensures
        t.with_cell(row, col, c).well_formed(),
        t.with_cell(row, col, c).data[row][col] == c,
        t.with_cell(row, col, c).num_rows() == t.num_rows(),
        forall|r: int| 0 <= r < t.num_rows() ==> #[trigger] t.with_cell(row, col, c).data[r].len() == t.data[r].len(),
        forall|r: int, k: int|
            t.has_cell(r, k) && (r != row || k != col) ==> #[trigger] t.with_cell(row, col, c).data[r][k] == t.data[r][k],
        t.with_cell(row, col, c).row_headers == t.row_headers,
        t.with_cell(row, col, c).col_headers == t.col_headers,
        t.with_cell(row, col, c).opts == t.opts,
        t.with_label(row, col, c.label).data[row][col].label == c.label,
        t.with_label(row, col, c.label).data[row][col].color == t.data[row][col].color,
        t.with_label(row, col, c.label).data[row][col].font == t.data[row][col].font,
        t.with_label(row, col, c.label).data[row][col].font_color == t.data[row][col].font_color,
        t.with_label(row, col, c.label).data[row][col].font_size == t.data[row][col].font_size,
        t.with_label(row, col, c.label).data[row][col].selection_color == t.data[row][col].selection_color,
        t.with_label(row, col, c.label).data[row][col].align == t.data[row][col].align,
        t.with_label(row, col, c.label).data[row][col].border_color == t.data[row][col].border_color,
{
}

/// A header write changes that header only.
pub proof fn law_replace_header(t: TableView, i: int, h: Seq<char>)
    requires
        t.well_formed(),
    ensures
        0 <= i < t.num_rows() ==> t.with_row_header(i, h).row_headers.len() == t.row_headers.len()
            && forall|k: int| 0 <= k < t.num_rows() && k != i ==> #[trigger] t.with_row_header(i, h).row_headers[k]
            == t.row_headers[k],
        0 <= i < t.num_cols() ==> t.with_col_header(i, h).col_headers.len() == t.col_headers.len()
            && forall|k: int| 0 <= k < t.num_cols() && k != i ==> #[trigger] t.with_col_header(i, h).col_headers[k]
            == t.col_headers[k],
        t.with_row_header(i, h).col_headers == t.col_headers,
        t.with_col_header(i, h).row_headers == t.row_headers,
{
}

/// An empty row inserted at `row` has one empty cell per column and the
/// header `h`; the rows and headers before it stay, those from `row` on move
/// down by one. An empty row appended does the same at the bottom.
pub proof fn law_empty_row_placement(t: TableView, row: int, h: Seq<char>)
    requires
        t.well_formed(),
        0 <= row <= t.num_rows(),
    ensures
        ({
            let u = t.insert_empty_row(row, h);
            &&& u.data.len() == t.data.len() + 1
            &&& u.data[row].len() == t.num_cols()
            &&& forall|c: int| 0 <= c < t.num_cols() ==> plain_cell(#[trigger] u.data[row][c], Seq::empty())
            &&& forall|i: int| 0 <= i < row ==> #[trigger] u.data[i] == t.data[i]
            &&& forall|i: int| row < i <= t.num_rows() ==> #[trigger] u.data[i] == t.data[i - 1]
            &&& u.row_headers.len() == t.row_headers.len() + 1
            &&& u.row_headers[row] == h
            &&& forall|i: int| 0 <= i < row ==> #[trigger] u.row_headers[i] == t.row_headers[i]
            &&& forall|i: int| row < i <= t.num_rows() ==> #[trigger] u.row_headers[i] == t.row_headers[i - 1]
            &&& u.col_headers == t.col_headers
        }),
        ({
            let u = t.append_empty_row(h);
            let n = t.num_rows() as int;
            &&& u.data.len() == t.data.len() + 1
            &&& u.data[n].len() == t.num_cols()
            &&& forall|c: int| 0 <= c < t.num_cols() ==> plain_cell(#[trigger] u.data[n][c], Seq::empty())
            &&& forall|i: int| 0 <= i < n ==> #[trigger] u.data[i] == t.data[i]
            &&& u.row_headers.len() == t.row_headers.len() + 1
            &&& u.row_headers[n] == h
            &&& forall|i: int| 0 <= i < n ==> #[trigger] u.row_headers[i] == t.row_headers[i]
            &&& u.col_headers == t.col_headers
        }),
{
}

/// A row of values inserted at `row` holds `vals[c]` in column `c`, with no
/// style; the rows before it stay, those from `row` on move down by one, and
/// its header is added after the last row header. Appending such a row puts
/// it at the bottom.
pub proof fn law_value_row_placement(t: TableView, row: int, h: Seq<char>, vals: Seq<Seq<char>>)
    requires
        t.well_formed(),
        0 <= row <= t.num_rows(),
        vals.len() == t.num_cols(),
    ensures
        ({
            let u = t.insert_row(row, h, vals);
            &&& u.data.len() == t.data.len() + 1
            &&& u.data[row].len() == vals.len()
            &&& forall|c: int| 0 <= c < vals.len() ==> plain_cell(#[trigger] u.data[row][c], vals[c])
            &&& forall|i: int| 0 <= i < row ==> #[trigger] u.data[i] == t.data[i]
            &&& forall|i: int| row < i <= t.num_rows() ==> #[trigger] u.data[i] == t.data[i - 1]
            &&& u.row_headers.len() == t.row_headers.len() + 1
            &&& u.row_headers[t.num_rows() as int] == h
            &&& forall|i: int| 0 <= i < t.num_rows() ==> #[trigger] u.row_headers[i] == t.row_headers[i]
            &&& u.col_headers == t.col_headers
        }),
        ({
            let u = t.append_row(h, vals);
            let n = t.num_rows() as int;
            &&& u.data.len() == t.data.len() + 1
            &&& u.data[n].len() == vals.len()
            &&& forall|c: int| 0 <= c < vals.len() ==> plain_cell(#[trigger] u.data[n][c], vals[c])
            &&& forall|i: int| 0 <= i < n ==> #[trigger] u.data[i] == t.data[i]
            &&& u.row_headers.len() == t.row_headers.len() + 1
            &&& u.row_headers[n] == h
            &&& forall|i: int| 0 <= i < n ==> #[trigger] u.row_headers[i] == t.row_headers[i]
            &&& u.col_headers == t.col_headers
        }),
{
}

/// Removing row `row` keeps the rows and headers before it and moves those
/// after it up by one.
pub proof fn law_remove_row_placement(t: TableView, row: int)
    requires
        t.well_formed(),
        0 <= row < t.num_rows(),
    ensures
        ({
            let u = t.remove_row(row);
            &&& u.data.len() == t.data.len() - 1
            &&& forall|i: int| 0 <= i < row ==> #[trigger] u.data[i] == t.data[i]
            &&& forall|i: int| row <= i < t.num_rows() - 1 ==> #[trigger] u.data[i] == t.data[i + 1]
            &&& u.row_headers.len() == t.row_headers.len() - 1
            &&& forall|i: int| 0 <= i < row ==> #[trigger] u.row_headers[i] == t.row_headers[i]
            &&& forall|i: int| row <= i < t.num_rows() - 1 ==> #[trigger] u.row_headers[i] == t.row_headers[i + 1]
            &&& u.col_headers == t.col_headers
        }),
{
}

/// An empty column inserted at `col` puts an empty cell at `col` in every
/// row and the header `h` at `col`; the cells and headers before it stay,
/// those from `col` on move right by one. An empty column appended does the
/// same at the right.
pub proof fn law_empty_col_placement(t: TableView, col: int, h: Seq<char>)
    requires
        t.well_formed(),
        0 <= col <= t.num_cols(),
    ensures
        ({
            let u = t.insert_empty_col(col, h);
            &&& u.data.len() == t.data.len()
            &&& forall|r: int| 0 <= r < t.num_rows() ==> #[trigger] u.data[r].len() == t.num_cols() + 1
            &&& forall|r: int| 0 <= r < t.num_rows() ==> plain_cell(#[trigger] u.data[r][col], Seq::empty())
            &&& forall|r: int, c: int| 0 <= r < t.num_rows() && 0 <= c < col ==> #[trigger] u.data[r][c] == t.data[r][c]
            &&& forall|r: int, c: int|
                0 <= r < t.num_rows() && col < c <= t.num_cols() ==> #[trigger] u.data[r][c] == t.data[r][c - 1]
            &&& u.col_headers.len() == t.col_headers.len() + 1
            &&& u.col_headers[col] == h
            &&& forall|c: int| 0 <= c < col ==> #[trigger] u.col_headers[c] == t.col_headers[c]
            &&& forall|c: int| col < c <= t.num_cols() ==> #[trigger] u.col_headers[c] == t.col_headers[c - 1]
            &&& u.row_headers == t.row_headers
        }),
        ({
            let u = t.append_empty_col(h);
            let m = t.num_cols() as int;
            &&& u.data.len() == t.data.len()
            &&& forall|r: int| 0 <= r < t.num_rows() ==> #[trigger] u.data[r].len() == m + 1
            &&& forall|r: int| 0 <= r < t.num_rows() ==> plain_cell(#[trigger] u.data[r][m], Seq::empty())
            &&& forall|r: int, c: int| 0 <= r < t.num_rows() && 0 <= c < m ==> #[trigger] u.data[r][c] == t.data[r][c]
            &&& u.col_headers.len() == t.col_headers.len() + 1
            &&& u.col_headers[m] == h
            &&& forall|c: int| 0 <= c < m ==> #[trigger] u.col_headers[c] == t.col_headers[c]
            &&& u.row_headers == t.row_headers
        }),
{
}

/// A column of values inserted at `col` holds `vals[r]` in row `r`, with no
/// style; the cells before it stay, those from `col` on move right by one,
/// and its header is added after the last column header. Appending such a
/// column puts it at the right.
pub proof fn law_value_col_placement(t: TableView, col: int, h: Seq<char>, vals: Seq<Seq<char>>)
    requires
        t.well_formed(),
        0 <= col <= t.num_cols(),
        vals.len() == t.num_rows(),
    ensures
        ({
            let u = t.insert_col(col, h, vals);
            &&& u.data.len() == t.data.len()
            &&& forall|r: int| 0 <= r < t.num_rows() ==> #[trigger] u.data[r].len() == t.num_cols() + 1
            &&& forall|r: int| 0 <= r < t.num_rows() ==> plain_cell(#[trigger] u.data[r][col], vals[r])
            &&& forall|r: int, c: int| 0 <= r < t.num_rows() && 0 <= c < col ==> #[trigger] u.data[r][c] == t.data[r][c]
            &&& forall|r: int, c: int|
                0 <= r < t.num_rows() && col < c <= t.num_cols() ==> #[trigger] u.data[r][c] == t.data[r][c - 1]
            &&& u.col_headers.len() == t.col_headers.len() + 1
            &&& u.col_headers[t.num_cols() as int] == h
            &&& forall|c: int| 0 <= c < t.num_cols() ==> #[trigger] u.col_headers[c] == t.col_headers[c]
            &&& u.row_headers == t.row_headers
        }),
        ({
            let u = t.append_col(h, vals);
            let m = t.num_cols() as int;
            &&& u.data.len() == t.data.len()
            &&& forall|r: int| 0 <= r < t.num_rows() ==> #[trigger] u.data[r].len() == m + 1
            &&& forall|r: int| 0 <= r < t.num_rows() ==> plain_cell(#[trigger] u.data[r][m], vals[r])
            &&& forall|r: int, c: int| 0 <= r < t.num_rows() && 0 <= c < m ==> #[trigger] u.data[r][c] == t.data[r][c]
            &&& u.col_headers.len() == t.col_headers.len() + 1
            &&& u.col_headers[m] == h
            &&& forall|c: int| 0 <= c < m ==> #[trigger] u.col_headers[c] == t.col_headers[c]
            &&& u.row_headers == t.row_headers
        }),
{
}

/// Removing column `col` keeps the cells and headers before it and moves
/// those after it left by one.
pub proof fn law_remove_col_placement(t: TableView, col: int)
    requires
        t.well_formed(),
        0 <= col < t.num_cols(),
    ensures
        ({
            let u = t.remove_col(col);
            &&& u.data.len() == t.data.len()
            &&& forall|r: int| 0 <= r < t.num_rows() ==> #[trigger] u.data[r].len() == t.num_cols() - 1
            &&& forall|r: int, c: int| 0 <= r < t.num_rows() && 0 <= c < col ==> #[trigger] u.data[r][c] == t.data[r][c]
            &&& forall|r: int, c: int|
                0 <= r < t.num_rows() && col <= c < t.num_cols() - 1 ==> #[trigger] u.data[r][c] == t.data[r][c + 1]
            &&& u.col_headers.len() == t.col_headers.len() - 1
            &&& forall|c: int| 0 <= c < col ==> #[trigger] u.col_headers[c] == t.col_headers[c]
            &&& forall|c: int| col <= c < t.num_cols() - 1 ==> #[trigger] u.col_headers[c] == t.col_headers[c + 1]
            &&& u.row_headers == t.row_headers
        }),
{
}

} // verus!
