# fltk_table

A spreadsheet-like table widget for FLTK, split in two:

- `src/` is the verified model: the cell matrix with labels and per-cell
  styling, row and column headers, the table's options, what is drawn for
  each header and cell, and what in-place editing does on each event.
  Every operation is specified against a plain-value view (`TableView`), and
  `src/laws.rs` proves properties that span operations (reading back a
  write, removing what was inserted, setting options, clearing, distinct
  column names).
- `app/` is the FLTK widget: it owns the `TableRow` and the editing input,
  forwards each call to the model, and performs the drawing the model plans.
