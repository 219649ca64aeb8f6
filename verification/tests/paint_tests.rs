use hexim::frame::{Cell, Highlight, Row, StatusLine};
use hexim::layout::Layout;
use hexim::paint::{dump, paint_grid, paint_status, push_cell, push_row};
use hexim::term::Palette;

fn marks() -> Palette {
    Palette {
        clear_screen: String::from("<CS>"),
        clear_line: String::from("<CL>"),
        bold: String::from("<B>"),
        reset: String::from("<R>"),
        fg_red: String::from("<fr>"),
        fg_white: String::from("<fw>"),
        bg_red: String::from("<br>"),
        bg_black: String::from("<bk>"),
    }
}

fn cell(c: &Cell, palette: &Palette) -> String {
    let mut out = String::new();
    push_cell(&mut out, c, palette);
    out
}

#[test]
fn terminal_palette_has_the_control_sequences() {
    let palette = Palette::terminal();
    assert_eq!(palette.clear_screen, "\x1b[2J");
    assert_eq!(palette.clear_line, "\x1b[2K");
    assert_eq!(palette.bold, "\x1b[1m");
    assert_eq!(palette.reset, "\x1b[m");
    assert!(palette.fg_red == "\x1b[38;5;1m" || palette.fg_red.is_empty());
    assert!(palette.fg_white == "\x1b[38;5;7m" || palette.fg_white.is_empty());
    assert!(palette.bg_red == "\x1b[48;5;1m" || palette.bg_red.is_empty());
    assert!(palette.bg_black == "\x1b[48;5;0m" || palette.bg_black.is_empty());
}

#[test]
fn plain_palette_is_empty() {
    let palette = Palette::plain();
    assert_eq!(
        palette,
        Palette {
            clear_screen: String::new(),
            clear_line: String::new(),
            bold: String::new(),
            reset: String::new(),
            fg_red: String::new(),
            fg_white: String::new(),
            bg_red: String::new(),
            bg_black: String::new(),
        }
    );
}

#[test]
fn cells_in_each_class() {
    let p = marks();
    assert_eq!(cell(&Cell { highlight: Highlight::Plain, byte: Some(0x0A) }, &p), " 0A");
    assert_eq!(cell(&Cell { highlight: Highlight::Cursor, byte: Some(0xFF) }, &p), " <bk><fw>FF<R>");
    assert_eq!(cell(&Cell { highlight: Highlight::Modified, byte: Some(0x10) }, &p), " <B>10<R>");
    assert_eq!(cell(&Cell { highlight: Highlight::Padding, byte: None }, &p), " <fr>--<R>");
    assert_eq!(cell(&Cell { highlight: Highlight::CursorPadding, byte: None }, &p), " <br><fw>--<R>");
}

#[test]
fn cells_without_styling() {
    let p = Palette::plain();
    assert_eq!(cell(&Cell { highlight: Highlight::Cursor, byte: Some(0xFF) }, &p), " FF");
    assert_eq!(cell(&Cell { highlight: Highlight::CursorPadding, byte: None }, &p), " --");
}

#[test]
fn push_cell_appends() {
    let mut out = String::from("x");
    push_cell(&mut out, &Cell { highlight: Highlight::Plain, byte: Some(1) }, &marks());
    assert_eq!(out, "x 01");
}

#[test]
fn row_has_label_separator_and_cells() {
    let row = Row {
        offset: 0x20,
        cells: vec![
            Cell { highlight: Highlight::Plain, byte: Some(0xDE) },
            Cell { highlight: Highlight::Cursor, byte: Some(0xAD) },
            Cell { highlight: Highlight::Padding, byte: None },
        ],
    };
    let mut out = String::new();
    push_row(&mut out, &row, &marks());
    assert_eq!(out, "00000020 | DE <bk><fw>AD<R> <fr>--<R>");
}

#[test]
fn row_label_grows_for_large_offsets() {
    let row = Row { offset: 0x1_0000_0000, cells: vec![] };
    let mut out = String::new();
    push_row(&mut out, &row, &marks());
    assert_eq!(out, "100000000 |");
}

#[test]
fn grid_ends_each_row() {
    let rows = vec![
        Row { offset: 0, cells: vec![Cell { highlight: Highlight::Plain, byte: Some(1) }] },
        Row { offset: 1, cells: vec![Cell { highlight: Highlight::Plain, byte: Some(2) }] },
    ];
    assert_eq!(paint_grid(&rows, &marks(), "\r\n"), "00000000 | 01\r\n00000001 | 02\r\n");
    assert_eq!(paint_grid(&rows, &marks(), "|"), "00000000 | 01|00000001 | 02|");
    assert_eq!(paint_grid(&Vec::new(), &marks(), "\r\n"), "");
}

#[test]
fn status_line_over_a_byte() {
    let status = StatusLine {
        byte_index: Some(0x2A),
        column: 3,
        row: 7,
        total_rows: 12,
        display_name: String::from("data.bin"),
        read_only: false,
    };
    assert_eq!(paint_status(&status, &marks()), "<fr><B>0000002A (3,7) line-count=12 Filename: data.bin <R>");
}

#[test]
fn status_line_on_padding_and_read_only() {
    let status = StatusLine {
        byte_index: None,
        column: 4,
        row: 2,
        total_rows: 2,
        display_name: String::from("untitled"),
        read_only: true,
    };
    assert_eq!(
        paint_status(&status, &marks()),
        "<fr><B>-------- (4,2) line-count=2 Filename: untitled (read-only)<R>"
    );
}

#[test]
fn dump_of_a_buffer() {
    let bytes: Vec<u8> = vec![0, 1, 2, 3, 0xFE];
    let layout = Layout::compute(22, 24, 5);
    assert_eq!(dump(&bytes, &layout), "00000000 | 00 01 02 03\n00000004 | FE -- -- --\n\n");
}

#[test]
fn dump_of_full_rows_has_no_padding() {
    let bytes: Vec<u8> = vec![0xAA; 8];
    let layout = Layout::compute(22, 24, 8);
    assert_eq!(dump(&bytes, &layout), "00000000 | AA AA AA AA\n00000004 | AA AA AA AA\n\n");
}

#[test]
fn dump_of_an_empty_buffer_is_one_line_feed() {
    let layout = Layout::compute(80, 24, 0);
    assert_eq!(dump(&Vec::new(), &layout), "\n");
}

#[test]
fn dump_does_not_depend_on_the_terminal_height() {
    let bytes: Vec<u8> = (0..50).collect();
    let low = Layout::compute(40, 0, 50);
    let high = Layout::compute(40, 200, 50);
    assert_eq!(dump(&bytes, &low), dump(&bytes, &high));
    assert_eq!(dump(&bytes, &low).lines().count(), 6);
}
