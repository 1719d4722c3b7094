//! Editing a cell in place: what the table does on each event of the
//! editing input.

use vstd::prelude::*;
use crate::draw::CellData;
use crate::table::{SmartTable, TableView};

verus! {

/// An event that bears on editing.
#[derive(Debug)]
pub enum EditEvent {
    /// The mouse was released over the table.
    Released,
    /// The input was committed (Enter) holding `value`.
    Commit(String),
    /// A key was released in the input; `escape` says whether it was Escape.
    KeyUp { escape: bool },
    /// Any other event.
    Other,
}

/// What the widget does in answer to an editing event.
#[derive(Debug)]
pub enum EditAction {
    /// Move the input over `(x, y, w, h)`, fill it with `text`, show it and
    /// give it the focus.
    ShowInput { x: i32, y: i32, w: i32, h: i32, text: String },
    /// The cell at `(row, col)` now holds `value`: tell the update callback,
    /// empty and hide the input, and redraw the table.
    Committed { row: i32, col: i32, value: String },
    /// Hide the input.
    HideInput,
    /// The event is not handled.
    Ignore,
}

/// Whether an editing event can be answered: those that read or write the
/// selected cell need a selected cell that the table has.
pub open spec fn can_handle(t: TableView, sel: CellData, ev: EditEvent) -> bool {
    match ev {
        EditEvent::Released | EditEvent::Commit(_) => t.has_cell(sel.row as int, sel.col as int),
        _ => true,
    }
}

impl SmartTable {
    /// Answers an editing event for the selected cell `sel`: a release over
    /// the table opens the input on that cell with its label; a commit writes
    /// the input's value into that cell; Escape hides the input; anything else
    /// is left alone.
    pub fn handle_edit_event(&mut self, sel: &CellData, ev: EditEvent) -> (a: EditAction)
        requires
            old(self)@.well_formed(),
            can_handle(old(self)@, *sel, ev),
        ensures
            final(self)@.well_formed(),
            match ev {
                EditEvent::Released => final(self)@ == old(self)@ && match a {
                    EditAction::ShowInput { x, y, w, h, text } => x == sel.x && y == sel.y && w == sel.w
                        && h == sel.h && text@ == old(self)@.data[sel.row as int][sel.col as int].label,
                    _ => false,
                },
                EditEvent::Commit(v) => final(self)@ == old(self)@.with_label(
                    sel.row as int,
                    sel.col as int,
                    v@,
                ) && match a {
                    EditAction::Committed { row, col, value } => row == sel.row && col == sel.col
                        && value@ == v@,
                    _ => false,
                },
                EditEvent::KeyUp { escape } => final(self)@ == old(self)@ && (if escape {
                    a is HideInput
                } else {
                    a is Ignore
                }),
                EditEvent::Other => final(self)@ == old(self)@ && a is Ignore,
            },
    {
        match ev {
            EditEvent::Released => {
                let text = self.cell_value(sel.row, sel.col);
                EditAction::ShowInput { x: sel.x, y: sel.y, w: sel.w, h: sel.h, text }
            },
            EditEvent::Commit(v) => {
                self.set_cell_value(sel.row, sel.col, v.as_str());
                EditAction::Committed { row: sel.row, col: sel.col, value: v }
            },
            EditEvent::KeyUp { escape } => {
                if escape {
                    EditAction::HideInput
                } else {
                    EditAction::Ignore
                }
            },
            EditEvent::Other => EditAction::Ignore,
        }
    }
}

} // verus!
