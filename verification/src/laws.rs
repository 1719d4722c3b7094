//! Properties of the table model that span its operations.

use vstd::prelude::*;
use crate::cell::{empty_cell, is_cell_plan, labelled_cell, CellDrawPlan, CellView};
use crate::draw::{is_draw_action, is_header_plan, DrawAction, HeaderDrawPlan, TableContext};
use crate::style::{default_opts, rgb_bits, TableOpts};
use crate::table::TableView;
use crate::text::{column_name, decimal, digit_char, letter};

verus! {

/// `c` is labelled `l` and sets no style of its own.
pub open spec fn plain_cell(c: CellView, l: Seq<char>) -> bool {
    &&& c.label == l
    &&& c.color is None
    &&& c.font is None
    &&& c.font_color is None
    &&& c.font_size is None
    &&& c.selection_color is None
    &&& c.align is None
    &&& c.border_color is None
}

/// The number that a string of decimal digits stands for.
pub open spec fn digits_value(s: Seq<char>) -> int
    decreases s.len(),
{
    if s.len() == 0 {
        0
    } else {
        digits_value(s.drop_last()) * 10 + (s.last() as int - 48)
    }
}

/// A new empty cell has no label and no style; a new labelled cell has its
/// label and no style.
pub proof fn law_new_cells(l: Seq<char>)
    ensures
        plain_cell(empty_cell(), Seq::empty()),
        plain_cell(labelled_cell(l), l),
{
}

/// The decimal representation of `n` is made of digits `0`-`9`, has no
/// leading zero, and stands for `n`.
pub proof fn law_decimal_value(n: nat)
    ensures
        decimal(n).len() >= 1,
        forall|k: int| 0 <= k < decimal(n).len() ==> 48 <= #[trigger] (decimal(n)[k] as int) <= 57,
        n > 0 ==> decimal(n)[0] as int != 48,
        digits_value(decimal(n)) == n,
    decreases n,
{
    lemma_decimal_digits(n);
    if n < 10 {
        assert(decimal(n) == seq![digit_char(n as int)]);
        assert(digit_char(n as int) as int == 48 + n);
        assert(decimal(n).drop_last() =~= Seq::<char>::empty());
        assert(decimal(n).last() == digit_char(n as int));
        assert(digits_value(Seq::<char>::empty()) == 0);
        assert(digits_value(decimal(n)) == digits_value(decimal(n).drop_last()) * 10 + (decimal(n).last() as int - 48));
    } else {
        law_decimal_value(n / 10);
        assert(decimal(n / 10) =~= decimal(n).drop_last());
        assert(decimal(n)[0] == decimal(n / 10)[0]);
        assert(digit_char((n % 10) as int) as int == 48 + n % 10);
        assert(decimal(n).last() == digit_char((n % 10) as int));
        assert(digits_value(decimal(n)) == digits_value(decimal(n).drop_last()) * 10 + (decimal(n).last() as int - 48));
        assert(digits_value(decimal(n)) == (n / 10) as int * 10 + n % 10);
    }
}

/// Column `i` is named by the capital letter with code `65 + i` for the
/// first 26 columns, by the two capitals with codes `65 + i / 26 - 1` and
/// `65 + i % 26` for the next 676, and by `i` in decimal beyond.
pub proof fn law_column_letters(i: nat)
    ensures
        i <= 25 ==> column_name(i).len() == 1 && column_name(i)[0] as int == 65 + i,
        26 <= i <= 701 ==> column_name(i).len() == 2 && column_name(i)[0] as int == 65 + i / 26 - 1
            && column_name(i)[1] as int == 65 + i % 26,
        i >= 702 ==> column_name(i) == decimal(i),
{
    if i <= 25 {
        assert(letter(i as int) as int == 65 + i);
    } else if i <= 701 {
        assert(letter(i / 26 - 1) as int == 65 + i / 26 - 1);
        assert(letter((i % 26) as int) as int == 65 + i % 26);
    }
}

/// The options a table starts from: one row and one column, not editable,
/// the Helvetica font (index 0) at size 14 for cells and headers, cells on
/// colour 7 (`BackGround2`) with text and border in colour 32 (`Gray0`),
/// selected cells in RGB `0xD3D3D3`, centred, one pixel of padding, headers
/// in a thin up box (frame 6) of colour 49 (`FrameDefault`) with text in
/// colour 56 (`Black`), centred.
pub proof fn law_default_opts()
    ensures
        default_opts().rows == 1,
        default_opts().cols == 1,
        !default_opts().editable,
        default_opts().cell_color.bits == 7,
        default_opts().cell_font.bits == 0,
        default_opts().cell_font_color.bits == 32,
        default_opts().cell_font_size == 14,
        default_opts().cell_selection_color.bits == 0xD3D3_D300,
        default_opts().cell_align.bits == 0,
        default_opts().cell_border_color.bits == 32,
        default_opts().cell_padding == 1,
        default_opts().header_font.bits == 0,
        default_opts().header_frame.bits == 6,
        default_opts().header_color.bits == 49,
        default_opts().header_font_color.bits == 56,
        default_opts().header_font_size == 14,
        default_opts().header_align.bits == 0,
{
}

/// A colour made from `0xRRGGBB` keeps the three low bytes of the value,
/// moved up by one byte, and has a zero low byte.
pub proof fn law_rgb_bits(val: u32)
    ensures
        rgb_bits(val) as int == (val as int % 0x0100_0000) * 256,
        rgb_bits(val) as int % 256 == 0,
        rgb_bits(val) as int / 256 == val as int % 0x0100_0000,
{
}

/// A cell is drawn in its rectangle, filled (when selected) with its own
/// selection colour or else the table's, and (when not selected) with its own
/// background or else the table's; its text is written in its own font
/// colour, font, size and alignment, or else the table's cell ones, inset by
/// the table's padding on both sides; its border is its own border colour or
/// else the table's.
pub proof fn law_cell_plan(
    p: CellDrawPlan,
    c: CellView,
    x: i32,
    y: i32,
    w: i32,
    h: i32,
    selected: bool,
    opts: TableOpts,
)
    requires
        is_cell_plan(p, c, x, y, w, h, selected, opts),
    ensures
        p.x == x && p.y == y && p.w == w && p.h == h,
        p.label@ == c.label,
        selected ==> match c.selection_color {
            Some(v) => p.fill_color == v,
            None => p.fill_color == opts.cell_selection_color,
        },
        !selected ==> match c.color {
            Some(v) => p.fill_color == v,
            None => p.fill_color == opts.cell_color,
        },
        match c.font_color {
            Some(v) => p.text_color == v,
            None => p.text_color == opts.cell_font_color,
        },
        match c.font {
            Some(v) => p.font == v,
            None => p.font == opts.cell_font,
        },
        match c.font_size {
            Some(v) => p.font_size == v,
            None => p.font_size == opts.cell_font_size,
        },
        match c.align {
            Some(v) => p.align == v,
            None => p.align == opts.cell_align,
        },
        match c.border_color {
            Some(v) => p.border_color == v,
            None => p.border_color == opts.cell_border_color,
        },
        p.text_x == x + opts.cell_padding,
        p.text_w == w - 2 * opts.cell_padding,
{
}

/// A header is drawn with its text in its rectangle, in the table's header
/// frame, colour, text colour, font, size and alignment.
pub proof fn law_header_plan(
    p: HeaderDrawPlan,
    text: Seq<char>,
    x: i32,
    y: i32,
    w: i32,
    h: i32,
    opts: TableOpts,
)
    requires
        is_header_plan(p, text, x, y, w, h, opts),
    ensures
        p.text@ == text,
        p.x == x && p.y == y && p.w == w && p.h == h,
        p.frame == opts.header_frame,
        p.color == opts.header_color,
        p.text_color == opts.header_font_color,
        p.font == opts.header_font,
        p.font_size == opts.header_font_size,
        p.align == opts.header_align,
{
}

/// A page starts with the font set to Helvetica (index 0) at 14; a column
/// header shows that column's header text, a row header that row's, a cell is
/// drawn from that cell; nothing else is drawn.
pub proof fn law_draw_action(
    a: DrawAction,
    t: TableView,
    ctx: TableContext,
    row: i32,
    col: i32,
    x: i32,
    y: i32,
    w: i32,
    h: i32,
    selected: bool,
)
    requires
        is_draw_action(a, t, ctx, row, col, x, y, w, h, selected),
    ensures
        ctx == TableContext::StartPage ==> (a matches DrawAction::StartPage { font, size } && font.bits == 0
            && size == 14),
        ctx == TableContext::ColHeader ==> (a matches DrawAction::Header(p) && p.text@ == t.col_headers[col as int]
            && is_header_plan(p, p.text@, x, y, w, h, t.opts)),
        ctx == TableContext::RowHeader ==> (a matches DrawAction::Header(p) && p.text@ == t.row_headers[row as int]
            && is_header_plan(p, p.text@, x, y, w, h, t.opts)),
        ctx == TableContext::Cell ==> (a matches DrawAction::Cell(p) && p.label@ == t.data[row as int][col as int].label
            && is_cell_plan(p, t.data[row as int][col as int], x, y, w, h, selected, t.opts)),
        ctx != TableContext::StartPage && ctx != TableContext::ColHeader && ctx != TableContext::RowHeader
            && ctx != TableContext::Cell ==> a is Nothing,
{
}

/// Reading a cell after writing its label gives the label written, and no
/// other cell, header or size changes.
pub proof fn law_cell_value_reads_last_write(t: TableView, row: int, col: int, val: Seq<char>)
    requires
        t.well_formed(),
        t.has_cell(row, col),
    ensures
        t.with_label(row, col, val).data[row][col].label == val,
        t.with_label(row, col, val).well_formed(),
        t.with_label(row, col, val).num_rows() == t.num_rows(),
        t.with_label(row, col, val).num_cols() == t.num_cols(),
        t.with_label(row, col, val).row_headers == t.row_headers,
        t.with_label(row, col, val).col_headers == t.col_headers,
        forall|r: int, c: int|
            t.has_cell(r, c) && (r != row || c != col) ==>
                #[trigger] t.with_label(row, col, val).data[r][c]
                == t.data[r][c],
{
}

/// Reading a header after writing it gives the text written; nothing else
/// changes.
pub proof fn law_header_reads_last_write(t: TableView, row: int, col: int, h: Seq<char>)
    requires
        t.well_formed(),
        0 <= row < t.num_rows(),
        0 <= col < t.num_cols(),
    ensures
        t.with_row_header(row, h).row_headers[row] == h,
        t.with_row_header(row, h).data == t.data,
        t.with_row_header(row, h).well_formed(),
        t.with_col_header(col, h).col_headers[col] == h,
        t.with_col_header(col, h).data == t.data,
        t.with_col_header(col, h).well_formed(),
{
}


/// Each row and column operation keeps the table well formed and changes the
/// number of rows or columns by exactly one.
pub proof fn law_row_and_column_counts(
    t: TableView,
    row: int,
    col: int,
    h: Seq<char>,
    row_vals: Seq<Seq<char>>,
    col_vals: Seq<Seq<char>>,
)
    requires
        t.well_formed(),
        t.num_rows() < i32::MAX,
        t.num_cols() < i32::MAX,
        0 <= row <= t.num_rows(),
        0 <= col <= t.num_cols(),
        row_vals.len() == t.num_cols(),
        col_vals.len() == t.num_rows(),
    ensures
        t.insert_empty_row(row, h).well_formed(),
        t.insert_empty_row(row, h).num_rows() == t.num_rows() + 1,
        t.insert_empty_row(row, h).num_cols() == t.num_cols(),
        t.insert_row(row, h, row_vals).well_formed(),
        t.insert_row(row, h, row_vals).num_rows() == t.num_rows() + 1,
        t.insert_row(row, h, row_vals).num_cols() == t.num_cols(),
        t.append_empty_row(h).well_formed(),
        t.append_empty_row(h).num_rows() == t.num_rows() + 1,
        t.append_row(h, row_vals).well_formed(),
        t.append_row(h, row_vals).num_rows() == t.num_rows() + 1,
        t.insert_empty_col(col, h).well_formed(),
        t.insert_empty_col(col, h).num_cols() == t.num_cols() + 1,
        t.insert_empty_col(col, h).num_rows() == t.num_rows(),
        t.insert_col(col, h, col_vals).well_formed(),
        t.insert_col(col, h, col_vals).num_cols() == t.num_cols() + 1,
        t.insert_col(col, h, col_vals).num_rows() == t.num_rows(),
        t.append_empty_col(h).well_formed(),
        t.append_empty_col(h).num_cols() == t.num_cols() + 1,
        t.append_col(h, col_vals).well_formed(),
        t.append_col(h, col_vals).num_cols() == t.num_cols() + 1,
        row < t.num_rows() ==> t.remove_row(row).well_formed() && t.remove_row(row).num_rows() == t.num_rows() - 1
            && t.remove_row(row).num_cols() == t.num_cols(),
        col < t.num_cols() ==> t.remove_col(col).well_formed() && t.remove_col(col).num_cols() == t.num_cols() - 1
            && t.remove_col(col).num_rows() == t.num_rows(),
{
    assert(t.insert_row(row, h, row_vals).row_headers.len() == t.num_rows() + 1);
}

/// Removing a row just inserted or appended at an index gives back the table
/// it was inserted into; the same holds of columns. A row inserted with
/// labels has its header added at the end, so removing it restores the cells
/// and, where it was inserted at the end, the headers too.
pub proof fn law_remove_undoes_insert(
    t: TableView,
    row: int,
    col: int,
    h: Seq<char>,
    row_vals: Seq<Seq<char>>,
    col_vals: Seq<Seq<char>>,
)
    requires
        t.well_formed(),
        0 <= row <= t.num_rows(),
        0 <= col <= t.num_cols(),
        row_vals.len() == t.num_cols(),
        col_vals.len() == t.num_rows(),
    ensures
        t.insert_empty_row(row, h).remove_row(row) == t,
        t.append_empty_row(h).remove_row(t.num_rows() as int) == t,
        t.append_row(h, row_vals).remove_row(t.num_rows() as int) == t,
        t.insert_row(row, h, row_vals).remove_row(row).data == t.data,
        t.insert_row(t.num_rows() as int, h, row_vals).remove_row(t.num_rows() as int) == t,
        t.insert_empty_col(col, h).remove_col(col) == t,
        t.append_empty_col(h).remove_col(t.num_cols() as int) == t,
        t.append_col(h, col_vals).remove_col(t.num_cols() as int) == t,
        t.insert_col(col, h, col_vals).remove_col(col).data == t.data,
        t.insert_col(t.num_cols() as int, h, col_vals).remove_col(t.num_cols() as int) == t,
{
    assert(t.insert_empty_row(row, h).remove_row(row).data =~= t.data);
    assert(t.insert_empty_row(row, h).remove_row(row).row_headers =~= t.row_headers);
    assert(t.append_empty_row(h).remove_row(t.num_rows() as int).data =~= t.data);
    assert(t.append_empty_row(h).remove_row(t.num_rows() as int).row_headers =~= t.row_headers);
    assert(t.append_row(h, row_vals).remove_row(t.num_rows() as int).data =~= t.data);
    assert(t.append_row(h, row_vals).remove_row(t.num_rows() as int).row_headers =~= t.row_headers);
    assert(t.insert_row(row, h, row_vals).remove_row(row).data =~= t.data);
    assert(t.insert_row(t.num_rows() as int, h, row_vals).remove_row(t.num_rows() as int).data =~= t.data);
    assert(t.insert_row(t.num_rows() as int, h, row_vals).remove_row(t.num_rows() as int).row_headers
        =~= t.row_headers);
    assert forall|i: int| 0 <= i < t.num_rows()
        implies #[trigger] t.insert_empty_col(col, h).remove_col(col).data[i]
        == t.data[i] by {
        assert(t.insert_empty_col(col, h).remove_col(col).data[i] =~= t.data[i]);
    }
    assert(t.insert_empty_col(col, h).remove_col(col).data =~= t.data);
    assert(t.insert_empty_col(col, h).remove_col(col).col_headers =~= t.col_headers);
    let n = t.num_cols() as int;
    assert forall|i: int| 0 <= i < t.num_rows()
        implies #[trigger] t.append_empty_col(h).remove_col(n).data[i]
        == t.data[i] by {
        assert(t.append_empty_col(h).remove_col(n).data[i] =~= t.data[i]);
    }
    assert(t.append_empty_col(h).remove_col(n).data =~= t.data);
    assert(t.append_empty_col(h).remove_col(n).col_headers =~= t.col_headers);
    assert forall|i: int| 0 <= i < t.num_rows()
        implies #[trigger] t.append_col(h, col_vals).remove_col(n).data[i]
        == t.data[i] by {
        assert(t.append_col(h, col_vals).remove_col(n).data[i] =~= t.data[i]);
    }
    assert(t.append_col(h, col_vals).remove_col(n).data =~= t.data);
    assert(t.append_col(h, col_vals).remove_col(n).col_headers =~= t.col_headers);
    assert forall|i: int| 0 <= i < t.num_rows()
        implies #[trigger] t.insert_col(col, h, col_vals).remove_col(col).data[i]
        == t.data[i] by {
        assert(t.insert_col(col, h, col_vals).remove_col(col).data[i] =~= t.data[i]);
    }
    assert(t.insert_col(col, h, col_vals).remove_col(col).data =~= t.data);
    assert forall|i: int| 0 <= i < t.num_rows()
        implies #[trigger] t.insert_col(n, h, col_vals).remove_col(n).data[i]
        == t.data[i] by {
        assert(t.insert_col(n, h, col_vals).remove_col(n).data[i] =~= t.data[i]);
    }
    assert(t.insert_col(n, h, col_vals).remove_col(n).data =~= t.data);
    assert(t.insert_col(n, h, col_vals).remove_col(n).col_headers =~= t.col_headers);
}


/// Every character of a decimal representation is a digit, and a number of
/// two or more digits is at least ten.
pub proof fn lemma_decimal_digits(n: nat)
    ensures
        decimal(n).len() >= 1,
        n >= 10 ==> decimal(n).len() >= 2,
        forall|k: int| 0 <= k < decimal(n).len() ==> 48 <= #[trigger] (decimal(n)[k] as int) <= 57,
    decreases n,
{
    if n >= 10 {
        lemma_decimal_digits(n / 10);
    }
}

/// Different numbers have different decimal representations.
pub proof fn lemma_decimal_injective(a: nat, b: nat)
    requires
        decimal(a) == decimal(b),
    ensures
        a == b,
    decreases a,
{
    lemma_decimal_digits(a);
    lemma_decimal_digits(b);
    if a < 10 && b < 10 {
        assert(decimal(a) == seq![digit_char(a as int)]);
        assert(decimal(b) == seq![digit_char(b as int)]);
        assert(decimal(a)[0] == digit_char(a as int));
        assert(decimal(b)[0] == digit_char(b as int));
        assert(digit_char(a as int) as int == 48 + a);
        assert(digit_char(b as int) as int == 48 + b);
        assert(a == b);
    } else if a >= 10 && b >= 10 {
        let la = decimal(a).len() - 1;
        assert(decimal(a)[la] == digit_char((a % 10) as int));
        assert(decimal(b)[la] == digit_char((b % 10) as int));
        assert(digit_char((a % 10) as int) as int == 48 + a % 10);
        assert(digit_char((b % 10) as int) as int == 48 + b % 10);
        assert(decimal(a / 10) =~= decimal(a).drop_last());
        assert(decimal(b / 10) =~= decimal(b).drop_last());
        lemma_decimal_injective(a / 10, b / 10);
    } else if a < 10 {
        lemma_decimal_digits(b / 10);
        assert(decimal(a).len() == 1);
    } else {
        lemma_decimal_digits(a / 10);
        assert(decimal(b).len() == 1);
    }
}

/// Different columns get different names.
pub proof fn law_column_names_distinct(i: nat, j: nat)
    requires
        i != j,
    ensures
        column_name(i) != column_name(j),
{
    lemma_decimal_digits(i);
    lemma_decimal_digits(j);
    if column_name(i) == column_name(j) {
        if i / 26 > 26 && j / 26 > 26 {
            lemma_decimal_injective(i, j);
        } else if i / 26 > 26 {
            assert(column_name(j)[0] == column_name(i)[0]);
            assert(48 <= (decimal(i)[0] as int) <= 57);
        } else if j / 26 > 26 {
            assert(column_name(j)[0] == column_name(i)[0]);
            assert(48 <= (decimal(j)[0] as int) <= 57);
        } else if i <= 25 && j <= 25 {
            assert(column_name(i)[0] == letter(i as int));
            assert(column_name(j)[0] == letter(j as int));
        } else if i > 25 && j > 25 {
            assert(column_name(i)[0] == column_name(j)[0]);
            assert(column_name(i)[1] == column_name(j)[1]);
            assert(letter(i / 26 - 1) == letter(j / 26 - 1));
            assert(letter((i % 26) as int) == letter((j % 26) as int));
        } else {
            assert(column_name(i).len() != column_name(j).len());
        }
    }
}

/// Setting a table up with `opts` gives `opts.rows` rows of `opts.cols`
/// cells, keeps every cell that lies within the new size, empties the
/// others, heads the rows `1`, `2`, ... and the columns with pairwise
/// different names; setting it up twice with the same options is the same as
/// once.
pub proof fn law_set_opts(t: TableView, opts: TableOpts)
    requires
        t.well_formed(),
        opts.rows >= 0,
        opts.cols >= 0,
    ensures
        t.with_opts(opts).well_formed(),
        t.with_opts(opts).num_rows() == opts.rows,
        t.with_opts(opts).num_cols() == opts.cols,
        t.with_opts(opts).opts == opts,
        forall|r: int, c: int|
            0 <= r < t.num_rows() && 0 <= c < t.num_cols() && r < opts.rows && c < opts.cols
                ==> #[trigger] t.with_opts(opts).data[r][c] == t.data[r][c],
        forall|r: int, c: int|
            0 <= r < opts.rows && 0 <= c < opts.cols && !t.has_cell(r, c)
                ==> plain_cell(#[trigger] t.with_opts(opts).data[r][c], Seq::empty()),
        forall|c: int| 0 <= c < opts.cols ==> #[trigger] t.with_opts(opts).col_headers[c] == column_name(c as nat),
        forall|r: int| 0 <= r < opts.rows ==>
            #[trigger] t.with_opts(opts).row_headers[r] == decimal((r + 1) as nat),
        forall|a: int, b: int|
            0 <= a < b < opts.cols ==>
                #[trigger] t.with_opts(opts).col_headers[a] != #[trigger] t.with_opts(opts).col_headers[b],
        forall|a: int, b: int|
            0 <= a < b < opts.rows ==>
                #[trigger] t.with_opts(opts).row_headers[a] != #[trigger] t.with_opts(opts).row_headers[b],
        t.with_opts(opts).with_opts(opts) == t.with_opts(opts),
{
    let u = t.with_opts(opts);
    assert forall|a: int, b: int| 0 <= a < b < opts.cols
        implies #[trigger] u.col_headers[a] != #[trigger] u.col_headers[b] by {
        law_column_names_distinct(a as nat, b as nat);
    }
    assert forall|a: int, b: int| 0 <= a < b < opts.rows
        implies #[trigger] u.row_headers[a] != #[trigger] u.row_headers[b] by {
        if decimal((a + 1) as nat) == decimal((b + 1) as nat) {
            lemma_decimal_injective((a + 1) as nat, (b + 1) as nat);
        }
    }
    let v = u.with_opts(opts);
    assert forall|r: int| 0 <= r < opts.rows implies #[trigger] v.data[r] == u.data[r] by {
        assert(v.data[r] =~= u.data[r]);
    }
    assert(v.data =~= u.data);
    assert(v.row_headers =~= u.row_headers);
    assert(v.col_headers =~= u.col_headers);
}

/// Clearing keeps the size and the headers, leaves every cell empty, undoes
/// any write of a label, and clearing twice is clearing once.
pub proof fn law_clear(t: TableView, row: int, col: int, val: Seq<char>)
    requires
        t.well_formed(),
    ensures
        t.cleared().well_formed(),
        t.cleared().num_rows() == t.num_rows(),
        t.cleared().num_cols() == t.num_cols(),
        t.cleared().row_headers == t.row_headers,
        t.cleared().col_headers == t.col_headers,
        forall|r: int, c: int| t.has_cell(r, c) ==>
            plain_cell(#[trigger] t.cleared().data[r][c], Seq::empty()),
        t.cleared().cleared() == t.cleared(),
        t.has_cell(row, col) ==> t.with_label(row, col, val).cleared() == t.cleared(),
{
    let u = t.cleared();
    assert forall|r: int| 0 <= r < t.num_rows()
        implies #[trigger] u.cleared().data[r] == u.data[r] by {
        assert(u.cleared().data[r] =~= u.data[r]);
    }
    assert(u.cleared().data =~= u.data);
    if t.has_cell(row, col) {
        let w = t.with_label(row, col, val);
        assert forall|r: int| 0 <= r < t.num_rows()
            implies #[trigger] w.cleared().data[r] == u.data[r] by {
            assert(w.cleared().data[r] =~= u.data[r]);
        }
        assert(w.cleared().data =~= u.data);
    }
}

} // verus!
