//! What is drawn for each part of the table, and the record of the selected
//! cell that editing starts from.

use vstd::prelude::*;
use crate::cell::{is_cell_plan, CellDrawPlan};
use crate::style::{Align, Color, Font, FrameType, TableOpts, HELVETICA};
use crate::table::TableView;

verus! {

/// The part of a table that is being drawn (FLTK's table contexts).
#[derive(Debug, Clone, Copy, PartialEq, Eq, Structural)]
pub enum TableContext {
    NoContext,
    StartPage,
    EndPage,
    RowHeader,
    ColHeader,
    Cell,
    Table,
    RcResize,
}

/// The last selected cell and the rectangle it was drawn in.
#[derive(Debug, Clone, Copy, PartialEq, Eq, Structural)]
pub struct CellData {
    pub row: i32,
    pub col: i32,
    pub x: i32,
    pub y: i32,
    pub w: i32,
    pub h: i32,
}

impl Default for CellData {
    fn default() -> (d: Self)
        ensures
            d == (CellData { row: 0, col: 0, x: 0, y: 0, w: 0, h: 0 }),
    {
        CellData { row: 0, col: 0, x: 0, y: 0, w: 0, h: 0 }
    }
}

impl CellData {
    /// Records the cell at `(row, col)`, drawn in `(x, y, w, h)`.
    pub fn select(&mut self, row: i32, col: i32, x: i32, y: i32, w: i32, h: i32)
        ensures
            *final(self) == (CellData { row, col, x, y, w, h }),
    {
        self.row = row;
        self.col = col;
        self.x = x;
        self.y = y;
        self.w = w;
        self.h = h;
    }
}

/// How a header is drawn: clipped to and boxed in its rectangle with the
/// header frame and colour, then its text written in the rectangle.
#[derive(Debug)]
pub struct HeaderDrawPlan {
    pub text: String,
    pub x: i32,
    pub y: i32,
    pub w: i32,
    pub h: i32,
    pub frame: FrameType,
    pub color: Color,
    pub text_color: Color,
    pub font: Font,
    pub font_size: i32,
    pub align: Align,
}

/// A header plan for the text `text` in `(x, y, w, h)`, styled by `opts`.
pub open spec fn is_header_plan(
    p: HeaderDrawPlan,
    text: Seq<char>,
    x: i32,
    y: i32,
    w: i32,
    h: i32,
    opts: TableOpts,
) -> bool {
    &&& p.text@ == text
    &&& p.x == x && p.y == y && p.w == w && p.h == h
    &&& p.frame == opts.header_frame
    &&& p.color == opts.header_color
    &&& p.text_color == opts.header_font_color
    &&& p.font == opts.header_font
    &&& p.font_size == opts.header_font_size
    &&& p.align == opts.header_align
}

/// What to draw for one part of the table.
#[derive(Debug)]
pub enum DrawAction {
    /// A page starts: set the font to `font` at `size`.
    StartPage { font: Font, size: i32 },
    /// Draw a row or column header.
    Header(HeaderDrawPlan),
    /// Draw a cell.
    Cell(CellDrawPlan),
    /// Draw nothing.
    Nothing,
}

/// Whether the part of the table named by `ctx`, `row` and `col` can be drawn:
/// headers and cells that the table has, and every other part.
pub open spec fn can_draw(t: TableView, ctx: TableContext, row: i32, col: i32, x: i32, w: i32) -> bool {
    match ctx {
        TableContext::RowHeader => 0 <= row < t.num_rows(),
        TableContext::ColHeader => 0 <= col < t.num_cols(),
        TableContext::Cell => t.has_cell(row as int, col as int) && crate::cell::text_box_fits(
            x,
            w,
            t.opts,
        ),
        _ => true,
    }
}

/// What is drawn for the part `ctx` of table `t` at `(row, col)` in
/// `(x, y, w, h)`: at the start of a page the font becomes Helvetica 14; a
/// header shows its text in the header style; a cell is drawn as its own
/// style and the table's options say (see `is_cell_plan`); nothing else is
/// drawn.
pub open spec fn is_draw_action(
    a: DrawAction,
    t: TableView,
    ctx: TableContext,
    row: i32,
    col: i32,
    x: i32,
    y: i32,
    w: i32,
    h: i32,
    selected: bool,
) -> bool {
    match ctx {
        TableContext::StartPage => a == (DrawAction::StartPage { font: Font { bits: HELVETICA }, size: 14 }),
        TableContext::ColHeader => match a {
            DrawAction::Header(p) => is_header_plan(p, t.col_headers[col as int], x, y, w, h, t.opts),
            _ => false,
        },
        TableContext::RowHeader => match a {
            DrawAction::Header(p) => is_header_plan(p, t.row_headers[row as int], x, y, w, h, t.opts),
            _ => false,
        },
        TableContext::Cell => match a {
            DrawAction::Cell(p) => is_cell_plan(
                p,
                t.data[row as int][col as int],
                x,
                y,
                w,
                h,
                selected,
                t.opts,
            ),
            _ => false,
        },
        _ => a == DrawAction::Nothing,
    }
}

} // verus!
