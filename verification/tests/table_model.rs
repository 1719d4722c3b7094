use fltk_table::text::{column_name_string, decimal_string};
use fltk_table::{
    Align, Cell, CellData, Color, DrawAction, Font, FrameType, SmartTable, TableContext, TableOpts,
};

fn opts(rows: i32, cols: i32) -> TableOpts {
    TableOpts {
        rows,
        cols,
        ..Default::default()
    }
}

fn table(rows: i32, cols: i32) -> SmartTable {
    let mut t = SmartTable::new();
    t.set_opts(opts(rows, cols));
    t
}

fn labels(t: &SmartTable) -> Vec<Vec<String>> {
    let mut out = Vec::new();
    for r in 0..t.row_count() {
        let mut row = Vec::new();
        for c in 0..t.column_count() {
            row.push(t.cell_value(r, c));
        }
        out.push(row);
    }
    out
}

fn row_headers(t: &mut SmartTable) -> Vec<String> {
    (0..t.row_count()).map(|r| t.row_header_value(r)).collect()
}

fn col_headers(t: &mut SmartTable) -> Vec<String> {
    (0..t.column_count()).map(|c| t.col_header_value(c)).collect()
}

#[test]
fn new_table_is_empty() {
    let t = SmartTable::new();
    assert_eq!(t.row_count(), 0);
    assert_eq!(t.column_count(), 0);
    let d = SmartTable::default();
    assert_eq!(d.row_count(), 0);
    assert_eq!(d.column_count(), 0);
}

#[test]
fn default_options() {
    let o = TableOpts::default();
    assert_eq!(o.rows, 1);
    assert_eq!(o.cols, 1);
    assert!(!o.editable);
    assert_eq!(o.cell_color, Color { bits: 7 });
    assert_eq!(o.cell_font, Font { bits: 0 });
    assert_eq!(o.cell_font_color, Color { bits: 32 });
    assert_eq!(o.cell_font_size, 14);
    assert_eq!(o.cell_selection_color, Color { bits: 0xD3D3_D300 });
    assert_eq!(o.cell_align, Align { bits: 0 });
    assert_eq!(o.cell_border_color, Color { bits: 32 });
    assert_eq!(o.cell_padding, 1);
    assert_eq!(o.header_font, Font { bits: 0 });
    assert_eq!(o.header_frame, FrameType { bits: 6 });
    assert_eq!(o.header_color, Color { bits: 49 });
    assert_eq!(o.header_font_color, Color { bits: 56 });
    assert_eq!(o.header_font_size, 14);
    assert_eq!(o.header_align, Align { bits: 0 });
}

#[test]
fn color_from_hex() {
    assert_eq!(Color::from_u32(0x00D3_D3D3).bits, 0xD3D3_D300);
    assert_eq!(Color::from_u32(0xFF12_3456).bits, 0x1234_5600);
    assert_eq!(Color::from_u32(0).bits, 0);
}

#[test]
fn decimal_strings() {
    assert_eq!(decimal_string(0), "0");
    assert_eq!(decimal_string(7), "7");
    assert_eq!(decimal_string(10), "10");
    assert_eq!(decimal_string(12345), "12345");
    assert_eq!(decimal_string(u32::MAX), u32::MAX.to_string());
}

#[test]
fn column_names() {
    assert_eq!(column_name_string(0), "A");
    assert_eq!(column_name_string(25), "Z");
    assert_eq!(column_name_string(26), "AA");
    assert_eq!(column_name_string(27), "AB");
    assert_eq!(column_name_string(51), "AZ");
    assert_eq!(column_name_string(52), "BA");
    assert_eq!(column_name_string(701), "ZZ");
    assert_eq!(column_name_string(702), "702");
    assert_eq!(column_name_string(10000), "10000");
}

#[test]
fn column_names_are_distinct() {
    let mut seen = std::collections::HashSet::new();
    for i in 0..2000 {
        assert!(seen.insert(column_name_string(i)));
    }
}

#[test]
fn set_opts_sizes_and_headers() {
    let mut t = table(3, 4);
    assert_eq!(t.row_count(), 3);
    assert_eq!(t.column_count(), 4);
    assert_eq!(row_headers(&mut t), vec!["1", "2", "3"]);
    assert_eq!(col_headers(&mut t), vec!["A", "B", "C", "D"]);
    assert_eq!(labels(&t), vec![vec![""; 4]; 3]);
}

#[test]
fn set_opts_keeps_cells_within_the_new_size() {
    let mut t = table(2, 2);
    t.set_cell_value(0, 0, "a");
    t.set_cell_value(0, 1, "b");
    t.set_cell_value(1, 0, "c");
    t.set_cell_value(1, 1, "d");
    t.set_row_header_value(0, "first");
    t.set_opts(opts(3, 1));
    assert_eq!(labels(&t), vec![vec!["a"], vec!["c"], vec![""]]);
    assert_eq!(row_headers(&mut t), vec!["1", "2", "3"]);
    assert_eq!(col_headers(&mut t), vec!["A"]);
    let t = t.with_opts(opts(1, 2));
    assert_eq!(labels(&t), vec![vec!["a", ""]]);
}

#[test]
fn set_opts_twice_is_once() {
    let mut t = table(2, 3);
    t.set_cell_value(1, 2, "x");
    let once = labels(&t);
    t.set_opts(opts(2, 3));
    assert_eq!(labels(&t), once);
}

#[test]
fn cell_value_reads_last_write() {
    let mut t = table(2, 2);
    t.set_cell_value(1, 0, "hello");
    t.set_cell_value(1, 0, "world");
    assert_eq!(t.cell_value(1, 0), "world");
    assert_eq!(t.cell_value(0, 0), "");
    assert_eq!(t.cell_value(1, 1), "");
}

#[test]
fn header_reads_last_write() {
    let mut t = table(2, 2);
    t.set_row_header_value(1, "Total");
    t.set_col_header_value(0, "Name");
    assert_eq!(t.row_header_value(1), "Total");
    assert_eq!(t.col_header_value(0), "Name");
    assert_eq!(t.row_header_value(0), "1");
    assert_eq!(t.col_header_value(1), "B");
}

#[test]
fn insert_and_append_rows() {
    let mut t = table(2, 2);
    t.set_cell_value(0, 0, "a");
    t.set_cell_value(1, 0, "b");
    t.insert_empty_row(1, "new");
    assert_eq!(t.row_count(), 3);
    assert_eq!(labels(&t), vec![vec!["a", ""], vec!["", ""], vec!["b", ""]]);
    assert_eq!(row_headers(&mut t), vec!["1", "new", "2"]);
    t.append_empty_row("last");
    assert_eq!(t.row_count(), 4);
    assert_eq!(row_headers(&mut t), vec!["1", "new", "2", "last"]);
    t.append_row("vals", &["x", "y"]);
    assert_eq!(labels(&t)[4], vec!["x", "y"]);
    assert_eq!(t.row_header_value(4), "vals");
}

#[test]
fn insert_row_puts_cells_at_index_and_header_last() {
    let mut t = table(2, 2);
    t.insert_row(0, "top", &["p", "q"]);
    assert_eq!(labels(&t), vec![vec!["p", "q"], vec!["", ""], vec!["", ""]]);
    assert_eq!(row_headers(&mut t), vec!["1", "2", "top"]);
}

#[test]
fn insert_and_append_columns() {
    let mut t = table(2, 2);
    t.set_cell_value(0, 1, "b");
    t.insert_empty_col(0, "first");
    assert_eq!(t.column_count(), 3);
    assert_eq!(labels(&t), vec![vec!["", "", "b"], vec!["", "", ""]]);
    assert_eq!(col_headers(&mut t), vec!["first", "A", "B"]);
    t.insert_col(1, "ins", &["r0", "r1"]);
    assert_eq!(labels(&t), vec![vec!["", "r0", "", "b"], vec!["", "r1", "", ""]]);
    assert_eq!(col_headers(&mut t), vec!["first", "A", "B", "ins"]);
    t.append_empty_col("e");
    t.append_col("v", &["s0", "s1"]);
    assert_eq!(t.column_count(), 6);
    assert_eq!(labels(&t)[1], vec!["", "r1", "", "", "", "s1"]);
    assert_eq!(col_headers(&mut t), vec!["first", "A", "B", "ins", "e", "v"]);
}

#[test]
fn remove_rows_and_columns() {
    let mut t = table(3, 3);
    t.set_cell_value(1, 1, "mid");
    t.set_cell_value(2, 2, "corner");
    t.remove_row(0);
    assert_eq!(t.row_count(), 2);
    assert_eq!(row_headers(&mut t), vec!["2", "3"]);
    t.remove_col(0);
    assert_eq!(t.column_count(), 2);
    assert_eq!(col_headers(&mut t), vec!["B", "C"]);
    assert_eq!(labels(&t), vec![vec!["mid", ""], vec!["", "corner"]]);
}

#[test]
fn remove_undoes_insert() {
    let mut t = table(2, 3);
    t.set_cell_value(1, 2, "z");
    let before = labels(&t);
    let rh = row_headers(&mut t);
    let ch = col_headers(&mut t);
    t.insert_empty_row(1, "tmp");
    t.remove_row(1);
    t.insert_empty_col(2, "tmp");
    t.remove_col(2);
    t.append_row("tmp", &["a", "b", "c"]);
    t.remove_row(2);
    t.append_col("tmp", &["a", "b"]);
    t.remove_col(3);
    assert_eq!(labels(&t), before);
    assert_eq!(row_headers(&mut t), rh);
    assert_eq!(col_headers(&mut t), ch);
}

#[test]
fn clear_empties_every_cell() {
    let mut t = table(2, 2);
    t.set_cell_value(0, 1, "x");
    t.set_cell_color(0, 1, Color { bits: 3 });
    t.set_row_header_value(0, "keep");
    t.clear();
    assert_eq!(labels(&t), vec![vec!["", ""], vec!["", ""]]);
    assert_eq!(t.row_header_value(0), "keep");
    let o = TableOpts::default();
    let p = t.data_ref()[0][1].draw_plan(0, 0, 10, 10, false, &o);
    assert_eq!(p.fill_color, o.cell_color);
    t.clear();
    assert_eq!(t.row_count(), 2);
    assert_eq!(t.column_count(), 2);
}

#[test]
fn data_copies_every_cell() {
    let mut t = table(2, 3);
    t.set_cell_value(1, 2, "v");
    let d = t.data();
    assert_eq!(d.len(), 2);
    assert!(d.iter().all(|r| r.len() == 3));
    let o = TableOpts::default();
    assert_eq!(d[1][2].draw_plan(0, 0, 5, 5, false, &o).label, "v");
    assert_eq!(d[0][0].draw_plan(0, 0, 5, 5, false, &o).label, "");
    assert_eq!(t.data_ref().len(), 2);
}

#[test]
fn cell_plan_uses_defaults_and_padding() {
    let o = TableOpts::default();
    let c = Cell::with_label("hi");
    let p = c.draw_plan(10, 20, 30, 40, false, &o);
    assert_eq!((p.x, p.y, p.w, p.h), (10, 20, 30, 40));
    assert_eq!(p.fill_color, Color { bits: 7 });
    assert_eq!(p.text_color, Color { bits: 32 });
    assert_eq!(p.font, Font { bits: 0 });
    assert_eq!(p.font_size, 14);
    assert_eq!(p.label, "hi");
    assert_eq!(p.text_x, 11);
    assert_eq!(p.text_w, 28);
    assert_eq!(p.align, Align { bits: 0 });
    assert_eq!(p.border_color, Color { bits: 32 });
    let s = c.draw_plan(10, 20, 30, 40, true, &o);
    assert_eq!(s.fill_color, Color { bits: 0xD3D3_D300 });
    assert_eq!(Cell::default().draw_plan(0, 0, 1, 1, false, &o).label, "");
}

#[test]
fn cell_plan_uses_cell_styles() {
    let mut t = table(1, 1);
    t.set_cell_color(0, 0, Color { bits: 1 });
    t.set_cell_selection_color(0, 0, Color { bits: 2 });
    t.set_cell_font_color(0, 0, Color { bits: 3 });
    t.set_cell_border_color(0, 0, Color { bits: 4 });
    t.set_cell_font(0, 0, Font { bits: 5 });
    t.set_cell_font_size(0, 0, 22);
    t.set_cell_align(0, 0, Align { bits: 8 });
    let mut o = TableOpts::default();
    o.cell_padding = 3;
    let p = t.data_ref()[0][0].draw_plan(0, 0, 100, 20, false, &o);
    assert_eq!(p.fill_color, Color { bits: 1 });
    assert_eq!(p.text_color, Color { bits: 3 });
    assert_eq!(p.border_color, Color { bits: 4 });
    assert_eq!(p.font, Font { bits: 5 });
    assert_eq!(p.font_size, 22);
    assert_eq!(p.align, Align { bits: 8 });
    assert_eq!(p.text_x, 3);
    assert_eq!(p.text_w, 94);
    let s = t.data_ref()[0][0].draw_plan(0, 0, 100, 20, true, &o);
    assert_eq!(s.fill_color, Color { bits: 2 });
}

#[test]
fn draw_actions() {
    let mut t = table(2, 2);
    t.set_cell_value(1, 1, "x");
    t.set_col_header_value(1, "Second");
    let mut sel = CellData::default();
    match t.draw_cell_action(&mut sel, TableContext::StartPage, 0, 0, 0, 0, 0, 0, false) {
        DrawAction::StartPage { font, size } => {
            assert_eq!(font, Font { bits: 0 });
            assert_eq!(size, 14);
        }
        other => panic!("unexpected {:?}", other),
    }
    match t.draw_cell_action(&mut sel, TableContext::ColHeader, 0, 1, 5, 6, 7, 8, false) {
        DrawAction::Header(h) => {
            assert_eq!(h.text, "Second");
            assert_eq!((h.x, h.y, h.w, h.h), (5, 6, 7, 8));
            assert_eq!(h.frame, FrameType { bits: 6 });
            assert_eq!(h.color, Color { bits: 49 });
            assert_eq!(h.text_color, Color { bits: 56 });
        }
        other => panic!("unexpected {:?}", other),
    }
    match t.draw_cell_action(&mut sel, TableContext::RowHeader, 1, 0, 0, 0, 0, 0, false) {
        DrawAction::Header(h) => assert_eq!(h.text, "2"),
        other => panic!("unexpected {:?}", other),
    }
    match t.draw_cell_action(&mut sel, TableContext::Cell, 1, 1, 1, 2, 3, 4, false) {
        DrawAction::Cell(p) => assert_eq!(p.label, "x"),
        other => panic!("unexpected {:?}", other),
    }
    assert_eq!(sel, CellData::default());
    match t.draw_cell_action(&mut sel, TableContext::Cell, 1, 1, 1, 2, 3, 4, true) {
        DrawAction::Cell(p) => assert_eq!(p.fill_color, Color { bits: 0xD3D3_D300 }),
        other => panic!("unexpected {:?}", other),
    }
    assert_eq!(sel, CellData { row: 1, col: 1, x: 1, y: 2, w: 3, h: 4 });
    assert!(matches!(
        t.draw_cell_action(&mut sel, TableContext::Table, 0, 0, 0, 0, 0, 0, true),
        DrawAction::Nothing
    ));
    assert_eq!(sel, CellData { row: 1, col: 1, x: 1, y: 2, w: 3, h: 4 });
}

#[test]
fn select_records_the_cell() {
    let mut s = CellData::default();
    s.select(3, 4, 10, 20, 30, 40);
    assert_eq!(s, CellData { row: 3, col: 4, x: 10, y: 20, w: 30, h: 40 });
}
