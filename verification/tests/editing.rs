use fltk_table::{CellData, EditAction, EditEvent, SmartTable, TableOpts};

fn table() -> SmartTable {
    let mut t = SmartTable::new();
    t.set_opts(TableOpts {
        rows: 2,
        cols: 2,
        editable: true,
        ..Default::default()
    });
    t
}

#[test]
fn release_opens_input_on_selected_cell() {
    let mut t = table();
    t.set_cell_value(1, 0, "old");
    let sel = CellData { row: 1, col: 0, x: 5, y: 6, w: 7, h: 8 };
    match t.handle_edit_event(&sel, EditEvent::Released) {
        EditAction::ShowInput { x, y, w, h, text } => {
            assert_eq!((x, y, w, h), (5, 6, 7, 8));
            assert_eq!(text, "old");
        }
        other => panic!("unexpected {:?}", other),
    }
    assert_eq!(t.cell_value(1, 0), "old");
}

#[test]
fn commit_writes_the_selected_cell() {
    let mut t = table();
    let sel = CellData { row: 0, col: 1, x: 0, y: 0, w: 0, h: 0 };
    match t.handle_edit_event(&sel, EditEvent::Commit("typed".to_string())) {
        EditAction::Committed { row, col, value } => {
            assert_eq!((row, col), (0, 1));
            assert_eq!(value, "typed");
        }
        other => panic!("unexpected {:?}", other),
    }
    assert_eq!(t.cell_value(0, 1), "typed");
    assert_eq!(t.cell_value(0, 0), "");
}

#[test]
fn escape_hides_input_and_other_keys_are_ignored() {
    let mut t = table();
    let sel = CellData::default();
    assert!(matches!(
        t.handle_edit_event(&sel, EditEvent::KeyUp { escape: true }),
        EditAction::HideInput
    ));
    assert!(matches!(
        t.handle_edit_event(&sel, EditEvent::KeyUp { escape: false }),
        EditAction::Ignore
    ));
    assert!(matches!(t.handle_edit_event(&sel, EditEvent::Other), EditAction::Ignore));
}
