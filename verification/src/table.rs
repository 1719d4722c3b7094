//! The table: a matrix of cells, one header per row and per column, and the
//! options it was set up with.

use vstd::prelude::*;
use crate::cell::{empty_cell, labelled_cell, Cell, CellView};
use crate::style::{default_opts, Align, Color, Font, TableOpts, HELVETICA};
use crate::text::{column_name, column_name_string, decimal, decimal_string};
use crate::draw::{is_draw_action, can_draw, CellData, DrawAction, HeaderDrawPlan, TableContext};

verus! {

/// What a table holds, as plain values.
pub struct TableView {
    /// The cells, row by row.
    pub data: Seq<Seq<CellView>>,
    /// The text of each row's header.
    pub row_headers: Seq<Seq<char>>,
    /// The text of each column's header.
    pub col_headers: Seq<Seq<char>>,
    /// The options the table was last set up with.
    pub opts: TableOpts,
}

/// A row of `n` empty cells.
pub open spec fn empty_row(n: nat) -> Seq<CellView> {
    Seq::new(n, |j: int| empty_cell())
}

/// A row of cells labelled with `vals`, one each, with no styling of their own.
pub open spec fn labelled_row(vals: Seq<Seq<char>>) -> Seq<CellView> {
    Seq::new(vals.len(), |j: int| labelled_cell(vals[j]))
}

/// `r` cut or padded with empty cells to `n` cells.
pub open spec fn resized_row(r: Seq<CellView>, n: nat) -> Seq<CellView> {
    Seq::new(n, |j: int| if j < r.len() { r[j] } else { empty_cell() })
}

/// The texts of string slices.
pub open spec fn texts(vals: Seq<&str>) -> Seq<Seq<char>> {
    Seq::new(vals.len(), |i: int| vals[i]@)
}

impl TableView {
    /// The number of rows.
    pub open spec fn num_rows(self) -> nat {
        self.data.len()
    }

    /// The number of columns.
    pub open spec fn num_cols(self) -> nat {
        self.col_headers.len()
    }

    /// Every row has one header and one cell per column, and both counts fit
    /// the `i32` that FLTK counts rows and columns in.
    pub open spec fn well_formed(self) -> bool {
        &&& self.row_headers.len() == self.data.len()
        &&& self.data.len() <= i32::MAX
        &&& self.col_headers.len() <= i32::MAX
        &&& forall|i: int| 0 <= i < self.data.len() ==>
            #[trigger] self.data[i].len() == self.col_headers.len()
    }

    /// Whether `(row, col)` names a cell of the table.
    pub open spec fn has_cell(self, row: int, col: int) -> bool {
        0 <= row < self.num_rows() && 0 <= col < self.num_cols()
    }

    /// The table with the cell at `(row, col)` replaced by `c`.
    pub open spec fn with_cell(self, row: int, col: int, c: CellView) -> TableView {
        TableView { data: self.data.update(row, self.data[row].update(col, c)), ..self }
    }

    /// The table with the label of the cell at `(row, col)` replaced.
    pub open spec fn with_label(self, row: int, col: int, label: Seq<char>) -> TableView {
        self.with_cell(row, col, CellView { label, ..self.data[row][col] })
    }

    /// The table with the header of row `row` replaced by `header`.
    pub open spec fn with_row_header(self, row: int, header: Seq<char>) -> TableView {
        TableView { row_headers: self.row_headers.update(row, header), ..self }
    }

    /// The table with the header of column `col` replaced by `header`.
    pub open spec fn with_col_header(self, col: int, header: Seq<char>) -> TableView {
        TableView { col_headers: self.col_headers.update(col, header), ..self }
    }

    /// The table with an empty row inserted before row `row`, under the header `header`.
    pub open spec fn insert_empty_row(self, row: int, header: Seq<char>) -> TableView {
        TableView {
            data: self.data.insert(row, empty_row(self.num_cols())),
            row_headers: self.row_headers.insert(row, header),
            ..self
        }
    }

    /// The table with a row labelled `vals` inserted before row `row`, and the
    /// header `header` added after the last row header.
    pub open spec fn insert_row(self, row: int, header: Seq<char>, vals: Seq<Seq<char>>) -> TableView {
        TableView {
            data: self.data.insert(row, labelled_row(vals)),
            row_headers: self.row_headers.push(header),
            ..self
        }
    }

    /// The table with an empty row added at the bottom.
    pub open spec fn append_empty_row(self, header: Seq<char>) -> TableView {
        TableView {
            data: self.data.push(empty_row(self.num_cols())),
            row_headers: self.row_headers.push(header),
            ..self
        }
    }

    /// The table with a row labelled `vals` added at the bottom.
    pub open spec fn append_row(self, header: Seq<char>, vals: Seq<Seq<char>>) -> TableView {
        TableView {
            data: self.data.push(labelled_row(vals)),
            row_headers: self.row_headers.push(header),
            ..self
        }
    }

    /// The table with an empty column inserted before column `col`, under the
    /// header `header`.
    pub open spec fn insert_empty_col(self, col: int, header: Seq<char>) -> TableView {
        TableView {
            data: Seq::new(self.data.len(), |i: int| self.data[i].insert(col, empty_cell())),
            col_headers: self.col_headers.insert(col, header),
            ..self
        }
    }

    /// The table with a column labelled `vals` (top to bottom) inserted before
    /// column `col`, and the header `header` added after the last column header.
    pub open spec fn insert_col(self, col: int, header: Seq<char>, vals: Seq<Seq<char>>) -> TableView {
        TableView {
            data: Seq::new(
                self.data.len(),
                |i: int| self.data[i].insert(col, labelled_cell(vals[i])),
            ),
            col_headers: self.col_headers.push(header),
            ..self
        }
    }

    /// The table with an empty column added at the right.
    pub open spec fn append_empty_col(self, header: Seq<char>) -> TableView {
        TableView {
            data: Seq::new(self.data.len(), |i: int| self.data[i].push(empty_cell())),
            col_headers: self.col_headers.push(header),
            ..self
        }
    }

    /// The table with a column labelled `vals` (top to bottom) added at the right.
    pub open spec fn append_col(self, header: Seq<char>, vals: Seq<Seq<char>>) -> TableView {
        TableView {
            data: Seq::new(self.data.len(), |i: int| self.data[i].push(labelled_cell(vals[i]))),
            col_headers: self.col_headers.push(header),
            ..self
        }
    }

    /// The table without row `row` and its header.
    pub open spec fn remove_row(self, row: int) -> TableView {
        TableView {
            data: self.data.remove(row),
            row_headers: self.row_headers.remove(row),
            ..self
        }
    }

    /// The table without column `col` and its header.
    pub open spec fn remove_col(self, col: int) -> TableView {
        TableView {
            data: Seq::new(self.data.len(), |i: int| self.data[i].remove(col)),
            col_headers: self.col_headers.remove(col),
            ..self
        }
    }

    /// The table with every cell emptied: labels and styling gone, size and
    /// headers kept.
    pub open spec fn cleared(self) -> TableView {
        TableView {
            data: Seq::new(self.data.len(), |i: int| empty_row(self.data[i].len())),
            ..self
        }
    }

    /// The table set up with `opts`: `opts.rows` rows of `opts.cols` cells,
    /// keeping the cells that were within that size and emptying the rest,
    /// rows headed `1`, `2`, ... and columns `A`, `B`, ... (see `column_name`).
    pub open spec fn with_opts(self, opts: TableOpts) -> TableView {
        TableView {
            data: Seq::new(
                opts.rows as nat,
                |i: int|
                    resized_row(
                        if i < self.data.len() { self.data[i] } else { Seq::empty() },
                        opts.cols as nat,
                    ),
            ),
            row_headers: Seq::new(opts.rows as nat, |i: int| decimal((i + 1) as nat)),
            col_headers: Seq::new(opts.cols as nat, |j: int| column_name(j as nat)),
            opts,
        }
    }
}

/// The model of a smart table widget: the cells, the row and column headers
/// and the options; the widget itself draws what this holds.
#[derive(Debug)]
pub struct SmartTable {
    data: Vec<Vec<Cell>>,
    row_headers: Vec<String>,
    col_headers: Vec<String>,
    opts: TableOpts,
}

impl Default for SmartTable {
    fn default() -> (t: SmartTable)
        ensures
            t@.data == Seq::<Seq<CellView>>::empty(),
            t@.row_headers == Seq::<Seq<char>>::empty(),
            t@.col_headers == Seq::<Seq<char>>::empty(),
            t@.opts == default_opts(),
            t@.well_formed(),
    {
        SmartTable::new()
    }
}

/// The plain values of a row of cells.
pub open spec fn row_view(r: Seq<Cell>) -> Seq<CellView> {
    Seq::new(r.len(), |j: int| r[j]@)
}

/// The plain values of a matrix of cells, row by row.
pub open spec fn matrix_view(m: Seq<Vec<Cell>>) -> Seq<Seq<CellView>> {
    Seq::new(m.len(), |i: int| row_view(m[i]@))
}

/// The plain values of strings.
pub open spec fn strings_view(s: Seq<String>) -> Seq<Seq<char>> {
    Seq::new(s.len(), |i: int| s[i]@)
}

impl View for SmartTable {
    type V = TableView;

    closed spec fn view(&self) -> TableView {
        TableView {
            data: matrix_view(self.data@),
            row_headers: strings_view(self.row_headers@),
            col_headers: strings_view(self.col_headers@),
            opts: self.opts,
        }
    }
}

/// A row of cells labelled with `vals`.
fn new_labelled_row(vals: &[&str]) -> (r: Vec<Cell>)
    ensures
        row_view(r@) == labelled_row(texts(vals@)),
{
    let mut r: Vec<Cell> = Vec::new();
    let n = vals.len();
    while r.len() < n
        invariant
            r.len() <= n,
            n == vals@.len(),
            forall|j: int| 0 <= j < r.len() ==> #[trigger] r@[j]@ == labelled_cell(vals@[j]@),
        decreases n - r.len(),
    {
        let c = Cell::with_label(vals[r.len()]);
        r.push(c);
    }
    assert(row_view(r@) =~= labelled_row(texts(vals@)));
    r
}

/// Cuts `r` to `n` cells, or pads it with empty cells to `n`.
fn resize_row(r: &mut Vec<Cell>, n: usize)
    ensures
        row_view(final(r)@) == resized_row(row_view(old(r)@), n as nat),
{
    if r.len() > n {
        r.truncate(n);
    } else {
        while r.len() < n
            invariant
                old(r)@.len() <= r.len() <= n,
                forall|j: int| 0 <= j < old(r)@.len() ==> #[trigger] r@[j] == old(r)@[j],
                forall|j: int| old(r)@.len() <= j < r.len() ==> #[trigger] r@[j]@ == empty_cell(),
            decreases n - r.len(),
        {
            r.push(Cell::default());
        }
    }
    assert(row_view(r@) =~= resized_row(row_view(old(r)@), n as nat));
}

/// A row of `n` empty cells.
fn new_empty_row(n: usize) -> (r: Vec<Cell>)
    ensures
        row_view(r@) == empty_row(n as nat),
{
    let mut r: Vec<Cell> = Vec::new();
    while r.len() < n
        invariant
            r.len() <= n,
            forall|j: int| 0 <= j < r.len() ==> #[trigger] r@[j]@ == empty_cell(),
        decreases n - r.len(),
    {
        r.push(Cell::default());
    }
    assert(row_view(r@) =~= empty_row(n as nat));
    r
}

impl SmartTable {
    /// An empty table: no rows, no columns, the default options.
    pub fn new() -> (t: SmartTable)
        ensures
            t@.data == Seq::<Seq<CellView>>::empty(),
            t@.row_headers == Seq::<Seq<char>>::empty(),
            t@.col_headers == Seq::<Seq<char>>::empty(),
            t@.opts == default_opts(),
            t@.well_formed(),
    {
        let t = SmartTable {
            data: Vec::new(),
            row_headers: Vec::new(),
            col_headers: Vec::new(),
            opts: TableOpts::default(),
        };
        assert(t@.data =~= Seq::<Seq<CellView>>::empty());
        assert(t@.row_headers =~= Seq::<Seq<char>>::empty());
        assert(t@.col_headers =~= Seq::<Seq<char>>::empty());
        t
    }

    /// The number of rows.
    pub fn row_count(&self) -> (n: i32)
        requires
            self@.well_formed(),
        ensures
            n == self@.num_rows(),
    {
        self.data.len() as i32
    }

    /// The number of columns.
    pub fn column_count(&self) -> (n: i32)
        requires
            self@.well_formed(),
        ensures
            n == self@.num_cols(),
    {
        self.col_headers.len() as i32
    }

    /// Inserts an empty row before row `row`, headed `row_header`.
    pub fn insert_empty_row(&mut self, row: i32, row_header: &str)
        requires
            old(self)@.well_formed(),
            0 <= row <= old(self)@.num_rows(),
            old(self)@.num_rows() < i32::MAX,
        ensures
            final(self)@ == old(self)@.insert_empty_row(row as int, row_header@),
            final(self)@.well_formed(),
    {
        let ghost old_view = self@;
        let cols = self.col_headers.len();
        let r = new_empty_row(cols);
        self.data.insert(row as usize, r);
        self.row_headers.insert(row as usize, row_header.to_owned());
        assert(self@.data =~= old_view.data.insert(row as int, empty_row(cols as nat)));
        assert(self@.row_headers =~= old_view.row_headers.insert(row as int, row_header@));
    }

    /// Sets the table up with `opts`: the cells are cut or padded to
    /// `opts.rows` by `opts.cols` (cells within both sizes keep their
    /// contents), the rows are headed `1`, `2`, ..., the columns `A`, `B`, ...,
    /// and `opts` becomes the style the cells and headers are drawn with.
    pub fn set_opts(&mut self, opts: TableOpts)
        requires
            old(self)@.well_formed(),
            opts.rows >= 0,
            opts.cols >= 0,
        ensures
            final(self)@ == old(self)@.with_opts(opts),
            final(self)@.well_formed(),
    {
        let ghost old_data = self.data@;
        let rows = opts.rows as usize;
        let cols = opts.cols as usize;
        if self.data.len() > rows {
            self.data.truncate(rows);
        }
        while self.data.len() < rows
            invariant
                self.data.len() <= rows,
                old_data.len() > rows ==> self.data@ == old_data.subrange(0, rows as int),
                old_data.len() <= rows ==> {
                    &&& old_data.len() <= self.data.len()
                    &&& forall|k: int| 0 <= k < old_data.len() ==>
                        #[trigger] self.data@[k] == old_data[k]
                    &&& forall|k: int| old_data.len() <= k < self.data.len() ==>
                        #[trigger] self.data@[k]@.len() == 0
                },
            decreases rows - self.data.len(),
        {
            self.data.push(Vec::new());
        }
        let mut i: usize = 0;
        while i < rows
            invariant
                i <= rows,
                self.data.len() == rows,
                forall|k: int| 0 <= k < i ==> #[trigger] row_view(self.data@[k]@) == resized_row(
                    if k < old_data.len() { row_view(old_data[k]@) } else { Seq::empty() },
                    cols as nat,
                ),
                forall|k: int| i <= k < rows ==>
                    #[trigger] self.data@[k]@ == (if k < old_data.len() {
                    old_data[k]@
                } else {
                    Seq::<Cell>::empty()
                }),
            decreases rows - i,
        {
            resize_row(&mut self.data[i], cols);
            i += 1;
        }
        let mut row_headers: Vec<String> = Vec::new();
        let mut r: i32 = 0;
        while r < opts.rows
            invariant
                0 <= r <= opts.rows,
                row_headers.len() == r,
                forall|k: int| 0 <= k < r ==>
                    #[trigger] row_headers@[k]@ == decimal((k + 1) as nat),
            decreases opts.rows - r,
        {
            row_headers.push(decimal_string((r + 1) as u32));
            r += 1;
        }
        let mut col_headers: Vec<String> = Vec::new();
        let mut c: i32 = 0;
        while c < opts.cols
            invariant
                0 <= c <= opts.cols,
                col_headers.len() == c,
                forall|k: int| 0 <= k < c ==> #[trigger] col_headers@[k]@ == column_name(k as nat),
            decreases opts.cols - c,
        {
            col_headers.push(column_name_string(c));
            c += 1;
        }
        self.row_headers = row_headers;
        self.col_headers = col_headers;
        self.opts = opts;
        let ghost target = old(self)@.with_opts(opts);
        assert(self@.data =~= target.data) by {
            assert forall|k: int| 0 <= k < rows implies #[trigger] self@.data[k] == target.data[k] by {
                assert(row_view(self.data@[k]@) == resized_row(
                    if k < old_data.len() { row_view(old_data[k]@) } else { Seq::empty() },
                    cols as nat,
                ));
                if k < old_data.len() {
                    assert(matrix_view(old_data)[k] == row_view(old_data[k]@));
                }
            }
        }
        assert(self@.row_headers =~= target.row_headers);
        assert(self@.col_headers =~= target.col_headers);
    }

    /// The table set up with `opts` (see `set_opts`).
    pub fn with_opts(self, opts: TableOpts) -> (t: SmartTable)
        requires
            self@.well_formed(),
            opts.rows >= 0,
            opts.cols >= 0,
        ensures
            t@ == self@.with_opts(opts),
            t@.well_formed(),
    {
        let mut t = self;
        t.set_opts(opts);
        t
    }

    /// Inserts a row labelled `vals` before row `row`, and adds `row_header`
    /// after the last row header.
    pub fn insert_row(&mut self, row: i32, row_header: &str, vals: &[&str])
        requires
            old(self)@.well_formed(),
            0 <= row <= old(self)@.num_rows(),
            old(self)@.num_rows() < i32::MAX,
            vals@.len() == old(self)@.num_cols(),
        ensures
            final(self)@ == old(self)@.insert_row(row as int, row_header@, texts(vals@)),
            final(self)@.well_formed(),
    {
        let ghost old_view = self@;
        let r = new_labelled_row(vals);
        self.data.insert(row as usize, r);
        self.row_headers.push(row_header.to_owned());
        assert(self@.data =~= old_view.data.insert(row as int, labelled_row(texts(vals@))));
        assert(self@.row_headers =~= old_view.row_headers.push(row_header@));
    }

    /// Adds an empty row at the bottom, headed `row_header`.
    pub fn append_empty_row(&mut self, row_header: &str)
        requires
            old(self)@.well_formed(),
            old(self)@.num_rows() < i32::MAX,
        ensures
            final(self)@ == old(self)@.append_empty_row(row_header@),
            final(self)@.well_formed(),
    {
        let ghost old_view = self@;
        let cols = self.col_headers.len();
        let r = new_empty_row(cols);
        self.data.push(r);
        self.row_headers.push(row_header.to_owned());
        assert(self@.data =~= old_view.data.push(empty_row(cols as nat)));
        assert(self@.row_headers =~= old_view.row_headers.push(row_header@));
    }

    /// Adds a row labelled `vals` at the bottom, headed `row_header`.
    pub fn append_row(&mut self, row_header: &str, vals: &[&str])
        requires
            old(self)@.well_formed(),
            old(self)@.num_rows() < i32::MAX,
            vals@.len() == old(self)@.num_cols(),
        ensures
            final(self)@ == old(self)@.append_row(row_header@, texts(vals@)),
            final(self)@.well_formed(),
    {
        let ghost old_view = self@;
        let r = new_labelled_row(vals);
        self.data.push(r);
        self.row_headers.push(row_header.to_owned());
        assert(self@.data =~= old_view.data.push(labelled_row(texts(vals@))));
        assert(self@.row_headers =~= old_view.row_headers.push(row_header@));
    }

    /// Removes row `row` and its header.
    pub fn remove_row(&mut self, row: i32)
        requires
            old(self)@.well_formed(),
            0 <= row < old(self)@.num_rows(),
        ensures
            final(self)@ == old(self)@.remove_row(row as int),
            final(self)@.well_formed(),
    {
        let ghost old_view = self@;
        self.data.remove(row as usize);
        self.row_headers.remove(row as usize);
        assert(self@.data =~= old_view.data.remove(row as int));
        assert(self@.row_headers =~= old_view.row_headers.remove(row as int));
    }

    /// Inserts an empty column before column `col`, headed `col_header`.
    pub fn insert_empty_col(&mut self, col: i32, col_header: &str)
        requires
            old(self)@.well_formed(),
            0 <= col <= old(self)@.num_cols(),
            old(self)@.num_cols() < i32::MAX,
        ensures
            final(self)@ == old(self)@.insert_empty_col(col as int, col_header@),
            final(self)@.well_formed(),
    {
        let ghost old_view = self@;
        let ghost old_data = self.data@;
        let n = self.data.len();
        let mut i: usize = 0;
        while i < n
            invariant
                i <= n,
                n == old_data.len(),
                self.data@.len() == n,
                old_view.well_formed(),
                old_view == old(self)@,
                old_data == old(self).data@,
                self.col_headers == old(self).col_headers,
                self.row_headers == old(self).row_headers,
                self.opts == old(self).opts,
                0 <= col <= old_view.num_cols(),
                forall|k: int| 0 <= k < i ==>
                    #[trigger] row_view(self.data@[k]@) == row_view(old_data[k]@).insert(col as int, empty_cell()),
                forall|k: int| i <= k < n ==> #[trigger] self.data@[k] == old_data[k],
            decreases n - i,
        {
            assert(row_view(old_data[i as int]@).len() == old_data[i as int]@.len());
            assert(matrix_view(old_data)[i as int] == row_view(old_data[i as int]@));
            self.data[i].insert(col as usize, Cell::default());
            assert(row_view(self.data@[i as int]@) =~=
                row_view(old_data[i as int]@).insert(col as int, empty_cell()));
            i += 1;
        }
        self.col_headers.insert(col as usize, col_header.to_owned());
        let ghost target = old_view.insert_empty_col(col as int, col_header@);
        assert(self@.data =~= target.data);
        assert(self@.col_headers =~= target.col_headers);
    }

    /// Inserts a column labelled `vals` (top to bottom) before column `col`, and
    /// adds `col_header` after the last column header.
    pub fn insert_col(&mut self, col: i32, col_header: &str, vals: &[&str])
        requires
            old(self)@.well_formed(),
            0 <= col <= old(self)@.num_cols(),
            old(self)@.num_cols() < i32::MAX,
            vals@.len() == old(self)@.num_rows(),
        ensures
            final(self)@ == old(self)@.insert_col(col as int, col_header@, texts(vals@)),
            final(self)@.well_formed(),
    {
        let ghost old_view = self@;
        let ghost old_data = self.data@;
        let n = self.data.len();
        let mut i: usize = 0;
        while i < n
            invariant
                i <= n,
                n == old_data.len(),
                self.data@.len() == n,
                old_view.well_formed(),
                old_view == old(self)@,
                old_data == old(self).data@,
                self.col_headers == old(self).col_headers,
                self.row_headers == old(self).row_headers,
                self.opts == old(self).opts,
                0 <= col <= old_view.num_cols(),
                old_view.num_cols() < i32::MAX,
                vals@.len() == old_view.num_rows(),
                forall|k: int| 0 <= k < i ==>
                    #[trigger] row_view(self.data@[k]@) == row_view(old_data[k]@).insert(col as int, labelled_cell(vals@[k]@)),
                forall|k: int| i <= k < n ==> #[trigger] self.data@[k] == old_data[k],
            decreases n - i,
        {
            assert(row_view(old_data[i as int]@).len() == old_data[i as int]@.len());
            assert(matrix_view(old_data)[i as int] == row_view(old_data[i as int]@));
            self.data[i].insert(col as usize, Cell::with_label(vals[i]));
            assert(row_view(self.data@[i as int]@) =~=
                row_view(old_data[i as int]@).insert(col as int, labelled_cell(vals@[i as int]@)));
            i += 1;
        }
        self.col_headers.push(col_header.to_owned());
        let ghost target = old_view.insert_col(col as int, col_header@, texts(vals@));
        assert(self@.data =~= target.data);
        assert(self@.col_headers =~= target.col_headers);
    }

    /// Adds an empty column at the right, headed `col_header`.
    pub fn append_empty_col(&mut self, col_header: &str)
        requires
            old(self)@.well_formed(),
            old(self)@.num_cols() < i32::MAX,
        ensures
            final(self)@ == old(self)@.append_empty_col(col_header@),
            final(self)@.well_formed(),
    {
        let ghost old_view = self@;
        let ghost old_data = self.data@;
        let n = self.data.len();
        let mut i: usize = 0;
        while i < n
            invariant
                i <= n,
                n == old_data.len(),
                self.data@.len() == n,
                old_view.well_formed(),
                old_view == old(self)@,
                old_data == old(self).data@,
                self.col_headers == old(self).col_headers,
                self.row_headers == old(self).row_headers,
                self.opts == old(self).opts,
                old_view.num_cols() < i32::MAX,
                forall|k: int| 0 <= k < i ==>
                    #[trigger] row_view(self.data@[k]@) == row_view(old_data[k]@).push(empty_cell()),
                forall|k: int| i <= k < n ==> #[trigger] self.data@[k] == old_data[k],
            decreases n - i,
        {
            assert(row_view(old_data[i as int]@).len() == old_data[i as int]@.len());
            assert(matrix_view(old_data)[i as int] == row_view(old_data[i as int]@));
            self.data[i].push(Cell::default());
            assert(row_view(self.data@[i as int]@) =~=
                row_view(old_data[i as int]@).push(empty_cell()));
            i += 1;
        }
        self.col_headers.push(col_header.to_owned());
        let ghost target = old_view.append_empty_col(col_header@);
        assert(self@.data =~= target.data);
        assert(self@.col_headers =~= target.col_headers);
    }

    /// Adds a column labelled `vals` (top to bottom) at the right, headed
    /// `col_header`.
    pub fn append_col(&mut self, col_header: &str, vals: &[&str])
        requires
            old(self)@.well_formed(),
            old(self)@.num_cols() < i32::MAX,
            vals@.len() == old(self)@.num_rows(),
        ensures
            final(self)@ == old(self)@.append_col(col_header@, texts(vals@)),
            final(self)@.well_formed(),
    {
        let ghost old_view = self@;
        let ghost old_data = self.data@;
        let n = self.data.len();
        let mut i: usize = 0;
        while i < n
            invariant
                i <= n,
                n == old_data.len(),
                self.data@.len() == n,
                old_view.well_formed(),
                old_view == old(self)@,
                old_data == old(self).data@,
                self.col_headers == old(self).col_headers,
                self.row_headers == old(self).row_headers,
                self.opts == old(self).opts,
                old_view.num_cols() < i32::MAX,
                vals@.len() == old_view.num_rows(),
                forall|k: int| 0 <= k < i ==>
                    #[trigger] row_view(self.data@[k]@) == row_view(old_data[k]@).push(labelled_cell(vals@[k]@)),
                forall|k: int| i <= k < n ==> #[trigger] self.data@[k] == old_data[k],
            decreases n - i,
        {
            assert(row_view(old_data[i as int]@).len() == old_data[i as int]@.len());
            assert(matrix_view(old_data)[i as int] == row_view(old_data[i as int]@));
            self.data[i].push(Cell::with_label(vals[i]));
            assert(row_view(self.data@[i as int]@) =~=
                row_view(old_data[i as int]@).push(labelled_cell(vals@[i as int]@)));
            i += 1;
        }
        self.col_headers.push(col_header.to_owned());
        let ghost target = old_view.append_col(col_header@, texts(vals@));
        assert(self@.data =~= target.data);
        assert(self@.col_headers =~= target.col_headers);
    }

    /// Removes column `col` and its header.
    pub fn remove_col(&mut self, col: i32)
        requires
            old(self)@.well_formed(),
            0 <= col < old(self)@.num_cols(),
        ensures
            final(self)@ == old(self)@.remove_col(col as int),
            final(self)@.well_formed(),
    {
        let ghost old_view = self@;
        let ghost old_data = self.data@;
        let n = self.data.len();
        let mut i: usize = 0;
        while i < n
            invariant
                i <= n,
                n == old_data.len(),
                self.data@.len() == n,
                old_view.well_formed(),
                old_view == old(self)@,
                old_data == old(self).data@,
                self.col_headers == old(self).col_headers,
                self.row_headers == old(self).row_headers,
                self.opts == old(self).opts,
                0 <= col < old_view.num_cols(),
                forall|k: int| 0 <= k < i ==>
                    #[trigger] row_view(self.data@[k]@) == row_view(old_data[k]@).remove(col as int),
                forall|k: int| i <= k < n ==> #[trigger] self.data@[k] == old_data[k],
            decreases n - i,
        {
            assert(row_view(old_data[i as int]@).len() == old_data[i as int]@.len());
            assert(matrix_view(old_data)[i as int] == row_view(old_data[i as int]@));
            self.data[i].remove(col as usize);
            assert(row_view(self.data@[i as int]@) =~=
                row_view(old_data[i as int]@).remove(col as int));
            i += 1;
        }
        self.col_headers.remove(col as usize);
        let ghost target = old_view.remove_col(col as int);
        assert(self@.data =~= target.data);
        assert(self@.col_headers =~= target.col_headers);
    }

    /// The label of the cell at `(row, col)`.
    pub fn cell_value(&self, row: i32, col: i32) -> (v: String)
        requires
            self@.well_formed(),
            self@.has_cell(row as int, col as int),
        ensures
            v@ == self@.data[row as int][col as int].label,
    {
        proof {
            assert(self@.data[row as int] == row_view(self.data@[row as int]@));
        }
        self.data[row as usize][col as usize].label().clone()
    }

    /// Sets the label of the cell at `(row, col)`.
    pub fn set_cell_value(&mut self, row: i32, col: i32, val: &str)
        requires
            old(self)@.well_formed(),
            old(self)@.has_cell(row as int, col as int),
        ensures
            final(self)@ == old(self)@.with_label(row as int, col as int, val@),
            final(self)@.well_formed(),
    {
        let ghost old_view = self@;
        proof {
            assert(old_view.data[row as int] == row_view(self.data@[row as int]@));
        }
        self.data[row as usize][col as usize].set_label(val.to_owned());
        assert(self@.data =~= old_view.with_label(row as int, col as int, val@).data) by {
            assert(row_view(self.data@[row as int]@) =~= old_view.data[row as int].update(
                col as int,
                CellView { label: val@, ..old_view.data[row as int][col as int] },
            ));
        }
    }

    /// Gives the cell at `(row, col)` its own background colour.
    pub fn set_cell_color(&mut self, row: i32, col: i32, color: Color)
        requires
            old(self)@.well_formed(),
            old(self)@.has_cell(row as int, col as int),
        ensures
            final(self)@ == old(self)@.with_cell(
                row as int,
                col as int,
                CellView { color: Some(color), ..old(self)@.data[row as int][col as int] },
            ),
            final(self)@.well_formed(),
    {
        let ghost old_view = self@;
        proof {
            assert(old_view.data[row as int] == row_view(self.data@[row as int]@));
        }
        self.data[row as usize][col as usize].set_color(color);
        assert(self@.data =~= old_view.data.update(
            row as int,
            old_view.data[row as int].update(
                col as int,
                CellView { color: Some(color), ..old_view.data[row as int][col as int] },
            ),
        )) by {
            assert(row_view(self.data@[row as int]@) =~= old_view.data[row as int].update(
                col as int,
                CellView { color: Some(color), ..old_view.data[row as int][col as int] },
            ));
        }
    }

    /// Gives the cell at `(row, col)` its own selection colour.
    pub fn set_cell_selection_color(&mut self, row: i32, col: i32, color: Color)
        requires
            old(self)@.well_formed(),
            old(self)@.has_cell(row as int, col as int),
        ensures
            final(self)@ == old(self)@.with_cell(
                row as int,
                col as int,
                CellView { selection_color: Some(color), ..old(self)@.data[row as int][col as int] },
            ),
            final(self)@.well_formed(),
    {
        let ghost old_view = self@;
        proof {
            assert(old_view.data[row as int] == row_view(self.data@[row as int]@));
        }
        self.data[row as usize][col as usize].set_selection_color(color);
        assert(self@.data =~= old_view.data.update(
            row as int,
            old_view.data[row as int].update(
                col as int,
                CellView { selection_color: Some(color), ..old_view.data[row as int][col as int] },
            ),
        )) by {
            assert(row_view(self.data@[row as int]@) =~= old_view.data[row as int].update(
                col as int,
                CellView { selection_color: Some(color), ..old_view.data[row as int][col as int] },
            ));
        }
    }

    /// Gives the cell at `(row, col)` its own text colour.
    pub fn set_cell_font_color(&mut self, row: i32, col: i32, color: Color)
        requires
            old(self)@.well_formed(),
            old(self)@.has_cell(row as int, col as int),
        ensures
            final(self)@ == old(self)@.with_cell(
                row as int,
                col as int,
                CellView { font_color: Some(color), ..old(self)@.data[row as int][col as int] },
            ),
            final(self)@.well_formed(),
    {
        let ghost old_view = self@;
        proof {
            assert(old_view.data[row as int] == row_view(self.data@[row as int]@));
        }
        self.data[row as usize][col as usize].set_font_color(color);
        assert(self@.data =~= old_view.data.update(
            row as int,
            old_view.data[row as int].update(
                col as int,
                CellView { font_color: Some(color), ..old_view.data[row as int][col as int] },
            ),
        )) by {
            assert(row_view(self.data@[row as int]@) =~= old_view.data[row as int].update(
                col as int,
                CellView { font_color: Some(color), ..old_view.data[row as int][col as int] },
            ));
        }
    }

    /// Gives the cell at `(row, col)` its own border colour.
    pub fn set_cell_border_color(&mut self, row: i32, col: i32, color: Color)
        requires
            old(self)@.well_formed(),
            old(self)@.has_cell(row as int, col as int),
        ensures
            final(self)@ == old(self)@.with_cell(
                row as int,
                col as int,
                CellView { border_color: Some(color), ..old(self)@.data[row as int][col as int] },
            ),
            final(self)@.well_formed(),
    {
        let ghost old_view = self@;
        proof {
            assert(old_view.data[row as int] == row_view(self.data@[row as int]@));
        }
        self.data[row as usize][col as usize].set_border_color(color);
        assert(self@.data =~= old_view.data.update(
            row as int,
            old_view.data[row as int].update(
                col as int,
                CellView { border_color: Some(color), ..old_view.data[row as int][col as int] },
            ),
        )) by {
            assert(row_view(self.data@[row as int]@) =~= old_view.data[row as int].update(
                col as int,
                CellView { border_color: Some(color), ..old_view.data[row as int][col as int] },
            ));
        }
    }

    /// Gives the cell at `(row, col)` its own font.
    pub fn set_cell_font(&mut self, row: i32, col: i32, font: Font)
        requires
            old(self)@.well_formed(),
            old(self)@.has_cell(row as int, col as int),
        ensures
            final(self)@ == old(self)@.with_cell(
                row as int,
                col as int,
                CellView { font: Some(font), ..old(self)@.data[row as int][col as int] },
            ),
            final(self)@.well_formed(),
    {
        let ghost old_view = self@;
        proof {
            assert(old_view.data[row as int] == row_view(self.data@[row as int]@));
        }
        self.data[row as usize][col as usize].set_font(font);
        assert(self@.data =~= old_view.data.update(
            row as int,
            old_view.data[row as int].update(
                col as int,
                CellView { font: Some(font), ..old_view.data[row as int][col as int] },
            ),
        )) by {
            assert(row_view(self.data@[row as int]@) =~= old_view.data[row as int].update(
                col as int,
                CellView { font: Some(font), ..old_view.data[row as int][col as int] },
            ));
        }
    }

    /// Gives the cell at `(row, col)` its own font size.
    pub fn set_cell_font_size(&mut self, row: i32, col: i32, sz: i32)
        requires
            old(self)@.well_formed(),
            old(self)@.has_cell(row as int, col as int),
        ensures
            final(self)@ == old(self)@.with_cell(
                row as int,
                col as int,
                CellView { font_size: Some(sz), ..old(self)@.data[row as int][col as int] },
            ),
            final(self)@.well_formed(),
    {
        let ghost old_view = self@;
        proof {
            assert(old_view.data[row as int] == row_view(self.data@[row as int]@));
        }
        self.data[row as usize][col as usize].set_font_size(sz);
        assert(self@.data =~= old_view.data.update(
            row as int,
            old_view.data[row as int].update(
                col as int,
                CellView { font_size: Some(sz), ..old_view.data[row as int][col as int] },
            ),
        )) by {
            assert(row_view(self.data@[row as int]@) =~= old_view.data[row as int].update(
                col as int,
                CellView { font_size: Some(sz), ..old_view.data[row as int][col as int] },
            ));
        }
    }

    /// Gives the cell at `(row, col)` its own alignment.
    pub fn set_cell_align(&mut self, row: i32, col: i32, align: Align)
        requires
            old(self)@.well_formed(),
            old(self)@.has_cell(row as int, col as int),
        ensures
            final(self)@ == old(self)@.with_cell(
                row as int,
                col as int,
                CellView { align: Some(align), ..old(self)@.data[row as int][col as int] },
            ),
            final(self)@.well_formed(),
    {
        let ghost old_view = self@;
        proof {
            assert(old_view.data[row as int] == row_view(self.data@[row as int]@));
        }
        self.data[row as usize][col as usize].set_align(align);
        assert(self@.data =~= old_view.data.update(
            row as int,
            old_view.data[row as int].update(
                col as int,
                CellView { align: Some(align), ..old_view.data[row as int][col as int] },
            ),
        )) by {
            assert(row_view(self.data@[row as int]@) =~= old_view.data[row as int].update(
                col as int,
                CellView { align: Some(align), ..old_view.data[row as int][col as int] },
            ));
        }
    }

    /// Sets the header of row `row`.
    pub fn set_row_header_value(&mut self, row: i32, val: &str)
        requires
            old(self)@.well_formed(),
            0 <= row < old(self)@.num_rows(),
        ensures
            final(self)@ == old(self)@.with_row_header(row as int, val@),
            final(self)@.well_formed(),
    {
        let ghost old_view = self@;
        self.row_headers.set(row as usize, val.to_owned());
        assert(self@.row_headers =~= old_view.row_headers.update(row as int, val@));
    }

    /// Sets the header of column `col`.
    pub fn set_col_header_value(&mut self, col: i32, val: &str)
        requires
            old(self)@.well_formed(),
            0 <= col < old(self)@.num_cols(),
        ensures
            final(self)@ == old(self)@.with_col_header(col as int, val@),
            final(self)@.well_formed(),
    {
        let ghost old_view = self@;
        self.col_headers.set(col as usize, val.to_owned());
        assert(self@.col_headers =~= old_view.col_headers.update(col as int, val@));
    }

    /// The header of row `row`.
    pub fn row_header_value(&mut self, row: i32) -> (v: String)
        requires
            old(self)@.well_formed(),
            0 <= row < old(self)@.num_rows(),
        ensures
            v@ == old(self)@.row_headers[row as int],
            final(self)@ == old(self)@,
    {
        self.row_headers[row as usize].clone()
    }

    /// The header of column `col`.
    pub fn col_header_value(&mut self, col: i32) -> (v: String)
        requires
            old(self)@.well_formed(),
            0 <= col < old(self)@.num_cols(),
        ensures
            v@ == old(self)@.col_headers[col as int],
            final(self)@ == old(self)@,
    {
        self.col_headers[col as usize].clone()
    }

    /// Empties every cell: labels and styling are removed, the size and the
    /// headers stay.
    pub fn clear(&mut self)
        requires
            old(self)@.well_formed(),
        ensures
            final(self)@ == old(self)@.cleared(),
            final(self)@.well_formed(),
    {
        let ghost old_view = self@;
        let ghost old_data = self.data@;
        let n = self.data.len();
        let mut i: usize = 0;
        while i < n
            invariant
                i <= n,
                n == old_data.len(),
                self.data@.len() == n,
                old_view == old(self)@,
                old_data == old(self).data@,
                self.col_headers == old(self).col_headers,
                self.row_headers == old(self).row_headers,
                self.opts == old(self).opts,
                forall|k: int| 0 <= k < i ==>
                    #[trigger] row_view(self.data@[k]@) == empty_row(old_data[k]@.len()),
                forall|k: int| i <= k < n ==> #[trigger] self.data@[k] == old_data[k],
            decreases n - i,
        {
            let len = self.data[i].len();
            let r = new_empty_row(len);
            self.data.set(i, r);
            i += 1;
        }
        let ghost target = old_view.cleared();
        assert(self@.data =~= target.data) by {
            assert forall|k: int| 0 <= k < n implies #[trigger] self@.data[k] == target.data[k] by {
                assert(old_view.data[k] == row_view(old_data[k]@));
            }
        }
    }

    /// A copy of all cells, row by row.
    pub fn data(&self) -> (d: Vec<Vec<Cell>>)
        ensures
            matrix_view(d@) == self@.data,
    {
        let mut d: Vec<Vec<Cell>> = Vec::new();
        let n = self.data.len();
        while d.len() < n
            invariant
                d.len() <= n,
                n == self.data@.len(),
                forall|k: int| 0 <= k < d.len() ==>
                    #[trigger] row_view(d@[k]@) == row_view(self.data@[k]@),
            decreases n - d.len(),
        {
            let i = d.len();
            let src = &self.data[i];
            let mut r: Vec<Cell> = Vec::new();
            let m = src.len();
            while r.len() < m
                invariant
                    r.len() <= m,
                    m == src@.len(),
                    forall|j: int| 0 <= j < r.len() ==> #[trigger] r@[j]@ == src@[j]@,
                decreases m - r.len(),
            {
                r.push(src[r.len()].clone());
            }
            assert(row_view(r@) =~= row_view(src@));
            d.push(r);
        }
        assert(matrix_view(d@) =~= self@.data);
        d
    }

    /// The cells themselves, row by row.
    pub fn data_ref(&self) -> (d: &Vec<Vec<Cell>>)
        ensures
            matrix_view(d@) == self@.data,
    {
        &self.data
    }

    /// What to draw for the part `ctx` of the table at `(row, col)`, in the
    /// rectangle `(x, y, w, h)`; a selected cell is recorded in `sel`, from
    /// where editing starts.
    pub fn draw_cell_action(
        &self,
        sel: &mut CellData,
        ctx: TableContext,
        row: i32,
        col: i32,
        x: i32,
        y: i32,
        w: i32,
        h: i32,
        selected: bool,
    ) -> (a: DrawAction)
        requires
            self@.well_formed(),
            can_draw(self@, ctx, row, col, x, w),
        ensures
            is_draw_action(a, self@, ctx, row, col, x, y, w, h, selected),
            *final(sel) == (if ctx == TableContext::Cell && selected {
                CellData { row, col, x, y, w, h }
            } else {
                *old(sel)
            }),
    {
        match ctx {
            TableContext::StartPage => DrawAction::StartPage { font: Font { bits: HELVETICA }, size: 14 },
            TableContext::ColHeader => DrawAction::Header(
                self.header_plan(self.col_headers[col as usize].clone(), x, y, w, h),
            ),
            TableContext::RowHeader => DrawAction::Header(
                self.header_plan(self.row_headers[row as usize].clone(), x, y, w, h),
            ),
            TableContext::Cell => {
                if selected {
                    sel.select(row, col, x, y, w, h);
                }
                proof {
                    assert(self@.data[row as int] == row_view(self.data@[row as int]@));
                }
                DrawAction::Cell(
                    self.data[row as usize][col as usize].draw_plan(x, y, w, h, selected, &self.opts),
                )
            },
            _ => DrawAction::Nothing,
        }
    }

    /// The plan for a header with the text `text` in `(x, y, w, h)`.
    fn header_plan(&self, text: String, x: i32, y: i32, w: i32, h: i32) -> (p: HeaderDrawPlan)
        ensures
            crate::draw::is_header_plan(p, text@, x, y, w, h, self.opts),
    {
        HeaderDrawPlan {
            text,
            x,
            y,
            w,
            h,
            frame: self.opts.header_frame,
            color: self.opts.header_color,
            text_color: self.opts.header_font_color,
            font: self.opts.header_font,
            font_size: self.opts.header_font_size,
            align: self.opts.header_align,
        }
    }
}

} // verus!
