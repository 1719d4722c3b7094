//! A table cell: its label and the styling that overrides the table's.

use vstd::prelude::*;
use crate::style::{Align, Color, Font, TableOpts};

verus! {

/// One cell of the table. A style field that is `None` falls back to the
/// table's options when the cell is drawn.
#[derive(Debug)]
pub struct Cell {
    label: String,
    color: Option<Color>,
    font: Option<Font>,
    font_color: Option<Color>,
    font_size: Option<i32>,
    selection_color: Option<Color>,
    align: Option<Align>,
    border_color: Option<Color>,
}

/// What a cell holds, as plain values.
pub struct CellView {
    pub label: Seq<char>,
    pub color: Option<Color>,
    pub font: Option<Font>,
    pub font_color: Option<Color>,
    pub font_size: Option<i32>,
    pub selection_color: Option<Color>,
    pub align: Option<Align>,
    pub border_color: Option<Color>,
}

/// A cell with the given label and no styling of its own.
pub open spec fn labelled_cell(label: Seq<char>) -> CellView {
    CellView {
        label,
        color: None,
        font: None,
        font_color: None,
        font_size: None,
        selection_color: None,
        align: None,
        border_color: None,
    }
}

/// The empty cell: no label and no styling of its own.
pub open spec fn empty_cell() -> CellView {
    labelled_cell(Seq::empty())
}


/// `v` where the option holds one, `d` where it holds none.
pub open spec fn or_default<T>(o: Option<T>, d: T) -> T {
    match o {
        Some(v) => v,
        None => d,
    }
}

/// How one cell is drawn: its rectangle is clipped to and filled with
/// `fill_color`, the label is written in the inner box `(text_x, y, text_w, h)`,
/// and the rectangle is outlined in `border_color`.
#[derive(Debug)]
pub struct CellDrawPlan {
    pub x: i32,
    pub y: i32,
    pub w: i32,
    pub h: i32,
    pub fill_color: Color,
    pub text_color: Color,
    pub font: Font,
    pub font_size: i32,
    pub label: String,
    pub text_x: i32,
    pub text_w: i32,
    pub align: Align,
    pub border_color: Color,
}

/// What a correct plan for drawing cell `c` at `(x, y, w, h)` holds: each
/// style is the cell's own where it sets one and the table's otherwise; a
/// selected cell is filled with its selection colour, another with its
/// background; the label is inset by the padding on the left and right.
pub open spec fn is_cell_plan(
    p: CellDrawPlan,
    c: CellView,
    x: i32,
    y: i32,
    w: i32,
    h: i32,
    selected: bool,
    opts: TableOpts,
) -> bool {
    &&& p.x == x && p.y == y && p.w == w && p.h == h
    &&& p.fill_color == (if selected {
        or_default(c.selection_color, opts.cell_selection_color)
    } else {
        or_default(c.color, opts.cell_color)
    })
    &&& p.text_color == or_default(c.font_color, opts.cell_font_color)
    &&& p.font == or_default(c.font, opts.cell_font)
    &&& p.font_size == or_default(c.font_size, opts.cell_font_size)
    &&& p.label@ == c.label
    &&& p.text_x == x + opts.cell_padding
    &&& p.text_w == w - opts.cell_padding * 2
    &&& p.align == or_default(c.align, opts.cell_align)
    &&& p.border_color == or_default(c.border_color, opts.cell_border_color)
}

/// Whether the inset text box of a cell at `x` of width `w` is representable.
pub open spec fn text_box_fits(x: i32, w: i32, opts: TableOpts) -> bool {
    &&& i32::MIN <= x + opts.cell_padding <= i32::MAX
    &&& i32::MIN <= opts.cell_padding * 2 <= i32::MAX
    &&& i32::MIN <= w - opts.cell_padding * 2 <= i32::MAX
}

impl View for Cell {
    type V = CellView;

    closed spec fn view(&self) -> CellView {
        CellView {
            label: self.label@,
            color: self.color,
            font: self.font,
            font_color: self.font_color,
            font_size: self.font_size,
            selection_color: self.selection_color,
            align: self.align,
            border_color: self.border_color,
        }
    }
}

impl Default for Cell {
    fn default() -> (c: Self)
        ensures
            c@ == empty_cell(),
    {
        Cell {
            label: String::new(),
            color: None,
            font: None,
            font_color: None,
            font_size: None,
            selection_color: None,
            align: None,
            border_color: None,
        }
    }
}

impl Clone for Cell {
    fn clone(&self) -> (c: Self)
        ensures
            c@ == self@,
    {
        Cell {
            label: self.label.clone(),
            color: self.color,
            font: self.font,
            font_color: self.font_color,
            font_size: self.font_size,
            selection_color: self.selection_color,
            align: self.align,
            border_color: self.border_color,
        }
    }
}

impl Cell {
    /// A cell labelled `l`, with no styling of its own.
    pub fn with_label(l: &str) -> (c: Cell)
        ensures
            c@ == labelled_cell(l@),
    {
        Cell {
            label: l.to_owned(),
            color: None,
            font: None,
            font_color: None,
            font_size: None,
            selection_color: None,
            align: None,
            border_color: None,
        }
    }

    /// The cell's label.
    pub(crate) fn label(&self) -> (l: &String)
        ensures
            l@ == self@.label,
    {
        &self.label
    }

    /// Replaces the label.
    pub(crate) fn set_label(&mut self, l: String)
        ensures
            final(self)@ == (CellView { label: l@, ..old(self)@ }),
    {
        self.label = l;
    }

    /// Sets the cell's own color.
    pub(crate) fn set_color(&mut self, v: Color)
        ensures
            final(self)@ == (CellView { color: Some(v), ..old(self)@ }),
    {
        self.color = Some(v);
    }

    /// Sets the cell's own font.
    pub(crate) fn set_font(&mut self, v: Font)
        ensures
            final(self)@ == (CellView { font: Some(v), ..old(self)@ }),
    {
        self.font = Some(v);
    }

    /// Sets the cell's own font color.
    pub(crate) fn set_font_color(&mut self, v: Color)
        ensures
            final(self)@ == (CellView { font_color: Some(v), ..old(self)@ }),
    {
        self.font_color = Some(v);
    }

    /// Sets the cell's own font size.
    pub(crate) fn set_font_size(&mut self, v: i32)
        ensures
            final(self)@ == (CellView { font_size: Some(v), ..old(self)@ }),
    {
        self.font_size = Some(v);
    }

    /// Sets the cell's own selection color.
    pub(crate) fn set_selection_color(&mut self, v: Color)
        ensures
            final(self)@ == (CellView { selection_color: Some(v), ..old(self)@ }),
    {
        self.selection_color = Some(v);
    }

    /// Sets the cell's own alignment.
    pub(crate) fn set_align(&mut self, v: Align)
        ensures
            final(self)@ == (CellView { align: Some(v), ..old(self)@ }),
    {
        self.align = Some(v);
    }

    /// Sets the cell's own border color.
    pub(crate) fn set_border_color(&mut self, v: Color)
        ensures
            final(self)@ == (CellView { border_color: Some(v), ..old(self)@ }),
    {
        self.border_color = Some(v);
    }

    /// How this cell is drawn in the rectangle `(x, y, w, h)`, selected or
    /// not, with `opts` supplying every style the cell does not set.
    pub fn draw_plan(
        &self,
        x: i32,
        y: i32,
        w: i32,
        h: i32,
        selected: bool,
        opts: &TableOpts,
    ) -> (p: CellDrawPlan)
        requires
            text_box_fits(x, w, *opts),
        ensures
            is_cell_plan(p, self@, x, y, w, h, selected, *opts),
    {
        let sel_col = match self.selection_color {
            Some(c) => c,
            None => opts.cell_selection_color,
        };
        let bg = match self.color {
            Some(c) => c,
            None => opts.cell_color,
        };
        CellDrawPlan {
            x,
            y,
            w,
            h,
            fill_color: if selected { sel_col } else { bg },
            text_color: match self.font_color {
                Some(c) => c,
                None => opts.cell_font_color,
            },
            font: match self.font {
                Some(f) => f,
                None => opts.cell_font,
            },
            font_size: match self.font_size {
                Some(s) => s,
                None => opts.cell_font_size,
            },
            label: self.label.clone(),
            text_x: x + opts.cell_padding,
            text_w: w - opts.cell_padding * 2,
            align: match self.align {
                Some(a) => a,
                None => opts.cell_align,
            },
            border_color: match self.border_color {
                Some(c) => c,
                None => opts.cell_border_color,
            },
        }
    }
}

} // verus!
