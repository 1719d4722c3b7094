//! The data model of a spreadsheet-like table widget: a matrix of cells with
//! labels and per-cell styling, row and column headers, the table's options,
//! and what is drawn for each part of the table.

pub mod style;
pub mod text;
pub mod cell;
pub mod table;
pub mod draw;
pub mod edit;
pub mod laws;
pub mod placement;

pub use cell::{Cell, CellDrawPlan};
pub use edit::{EditAction, EditEvent};
pub use draw::{CellData, DrawAction, HeaderDrawPlan, TableContext};
pub use style::{Align, Color, Font, FrameType, TableOpts};
pub use table::SmartTable;
