use hexim::buffer::ByteBuffer;
use hexim::cursor::{CursorModel, Move};
use hexim::frame::{cell_at, cell_in, render, render_row, Cell, Frame, Highlight, Row, StatusLine};
use hexim::history::EditHistory;
use hexim::layout::Layout;

fn plain(byte: u8) -> Cell {
    Cell { highlight: Highlight::Plain, byte: Some(byte) }
}

fn padding() -> Cell {
    Cell { highlight: Highlight::Padding, byte: None }
}

#[test]
fn render_of_a_small_buffer() {
    let buffer = ByteBuffer::load(vec![0, 1, 2, 3, 4], "f", false);
    let layout = Layout::compute(22, 24, 5);
    let cursor = CursorModel::new(&layout);
    let history = EditHistory::new();
    let frame = render(&buffer, &layout, &cursor, &history);
    let expected = Frame {
        rows: vec![
            Row {
                offset: 0,
                cells: vec![Cell { highlight: Highlight::Cursor, byte: Some(0) }, plain(1), plain(2), plain(3)],
            },
            Row { offset: 4, cells: vec![plain(4), padding(), padding(), padding()] },
        ],
        status: StatusLine {
            byte_index: Some(0),
            column: 1,
            row: 1,
            total_rows: 2,
            display_name: String::from("f"),
            read_only: false,
        },
    };
    assert_eq!(frame, expected);
}

#[test]
fn render_marks_the_cursor_on_padding() {
    let buffer = ByteBuffer::load(vec![0, 1, 2, 3, 4], "f", true);
    let layout = Layout::compute(22, 24, 5);
    let mut cursor = CursorModel::new(&layout);
    cursor.apply(&layout, Move::Right);
    cursor.apply(&layout, Move::Down);
    let frame = render(&buffer, &layout, &cursor, &EditHistory::new());
    assert_eq!(
        frame.rows[1].cells,
        vec![plain(4), Cell { highlight: Highlight::CursorPadding, byte: None }, padding(), padding()]
    );
    assert_eq!(frame.rows[0].cells, vec![plain(0), plain(1), plain(2), plain(3)]);
    assert_eq!(frame.status.byte_index, None);
    assert_eq!(frame.status.column, 2);
    assert_eq!(frame.status.row, 2);
    assert!(frame.status.read_only);
}

#[test]
fn render_marks_edited_bytes() {
    let mut buffer = ByteBuffer::load(vec![0, 1, 2, 3], "f", false);
    let layout = Layout::compute(22, 24, 4);
    let cursor = CursorModel::new(&layout);
    let mut history = EditHistory::new();
    let previous = buffer.write(2, 0xAB).unwrap();
    history.push(2, previous);
    let previous = buffer.write(0, 0xCD).unwrap();
    history.push(0, previous);
    let frame = render(&buffer, &layout, &cursor, &history);
    assert_eq!(
        frame.rows[0].cells,
        vec![
            Cell { highlight: Highlight::Cursor, byte: Some(0xCD) },
            plain(1),
            Cell { highlight: Highlight::Modified, byte: Some(0xAB) },
            plain(3),
        ]
    );
}

#[test]
fn a_byte_undone_by_hand_is_still_marked_while_its_entry_stands() {
    let mut buffer = ByteBuffer::load(vec![0, 1, 2, 3], "f", false);
    let layout = Layout::compute(22, 24, 4);
    let cursor = CursorModel::new(&layout);
    let mut history = EditHistory::new();
    let previous = buffer.write(2, 0xAB).unwrap();
    history.push(2, previous);
    let previous = buffer.write(2, 2).unwrap();
    history.push(2, previous);
    assert!(!buffer.is_dirty());
    let frame = render(&buffer, &layout, &cursor, &history);
    assert_eq!(frame.rows[0].cells[2], Cell { highlight: Highlight::Modified, byte: Some(2) });
}

#[test]
fn render_shows_the_window_only() {
    let bytes: Vec<u8> = (0..40).collect();
    let buffer = ByteBuffer::load(bytes, "f", false);
    let layout = Layout::compute(22, 5, 40);
    let mut cursor = CursorModel::new(&layout);
    let history = EditHistory::new();
    let frame = render(&buffer, &layout, &cursor, &history);
    assert_eq!(frame.rows.len(), 2);
    assert_eq!(frame.rows[0].offset, 0);
    assert_eq!(frame.rows[1].offset, 4);
    for _ in 0..4 {
        cursor.apply(&layout, Move::Down);
    }
    assert_eq!(cursor.scroll_top, 3);
    let frame = render(&buffer, &layout, &cursor, &history);
    assert_eq!(frame.rows.len(), 2);
    assert_eq!(frame.rows[0].offset, 12);
    assert_eq!(frame.rows[1].offset, 16);
    assert_eq!(frame.rows[1].cells[0], Cell { highlight: Highlight::Cursor, byte: Some(16) });
    assert_eq!(frame.status.total_rows, 10);
}

#[test]
fn render_stops_at_the_end_of_the_grid() {
    let buffer = ByteBuffer::load(vec![7; 6], "f", false);
    let layout = Layout::compute(22, 24, 6);
    let cursor = CursorModel::new(&layout);
    let frame = render(&buffer, &layout, &cursor, &EditHistory::new());
    assert_eq!(frame.rows.len(), 2);
}

#[test]
fn render_of_an_empty_buffer_has_no_rows() {
    let buffer = ByteBuffer::zeroed(0, false);
    let layout = Layout::compute(80, 24, 0);
    let cursor = CursorModel::new(&layout);
    let frame = render(&buffer, &layout, &cursor, &EditHistory::new());
    assert_eq!(frame.rows, Vec::<Row>::new());
    assert_eq!(frame.status.byte_index, None);
    assert_eq!(frame.status.total_rows, 0);
    assert_eq!(frame.status.display_name, "untitled");
}

#[test]
fn render_in_a_terminal_without_room_has_no_rows() {
    let buffer = ByteBuffer::load(vec![1, 2, 3], "f", false);
    let layout = Layout::compute(80, 3, 3);
    let cursor = CursorModel::new(&layout);
    let frame = render(&buffer, &layout, &cursor, &EditHistory::new());
    assert_eq!(frame.rows.len(), 0);
    assert_eq!(frame.status.byte_index, Some(0));
}

#[test]
fn render_twice_gives_the_same_frame() {
    let mut buffer = ByteBuffer::load((0..100).collect(), "f", false);
    let layout = Layout::compute(40, 8, 100);
    let mut cursor = CursorModel::new(&layout);
    let mut history = EditHistory::new();
    let previous = buffer.write(17, 0xEE).unwrap();
    history.push(17, previous);
    for step in [Move::Down, Move::Down, Move::Right, Move::Down, Move::Down, Move::Down, Move::Down] {
        cursor.apply(&layout, step);
    }
    let first = render(&buffer, &layout, &cursor, &history);
    let second = render(&buffer, &layout, &cursor, &history);
    assert_eq!(first, second);
}

#[test]
fn render_depends_on_neither_the_baseline_nor_the_logged_bytes() {
    let layout = Layout::compute(22, 24, 4);
    let cursor = CursorModel::new(&layout);
    let mut first = ByteBuffer::load(vec![0, 1, 2, 3], "f", false);
    let mut first_log = EditHistory::new();
    let previous = first.write(1, 0x11).unwrap();
    first_log.push(1, previous);
    let second = ByteBuffer::load(vec![0, 0x11, 2, 3], "f", false);
    let mut second_log = EditHistory::new();
    second_log.push(1, 0x99);
    assert_eq!(
        render(&first, &layout, &cursor, &first_log),
        render(&second, &layout, &cursor, &second_log)
    );
}

#[test]
fn cell_at_classes() {
    let mut buffer = ByteBuffer::load(vec![0, 1, 2, 3, 4, 5], "f", false);
    let layout = Layout::compute(22, 24, 6);
    let mut cursor = CursorModel::new(&layout);
    let mut history = EditHistory::new();
    let previous = buffer.write(3, 0x33).unwrap();
    history.push(3, previous);
    assert_eq!(cell_at(&buffer, &history, &layout, &cursor, 0), Cell { highlight: Highlight::Cursor, byte: Some(0) });
    assert_eq!(cell_at(&buffer, &history, &layout, &cursor, 1), plain(1));
    assert_eq!(
        cell_at(&buffer, &history, &layout, &cursor, 3),
        Cell { highlight: Highlight::Modified, byte: Some(0x33) }
    );
    assert_eq!(cell_at(&buffer, &history, &layout, &cursor, 6), padding());
    assert_eq!(cell_at(&buffer, &history, &layout, &cursor, usize::MAX), padding());
    cursor.apply(&layout, Move::Right);
    cursor.apply(&layout, Move::Right);
    cursor.apply(&layout, Move::Down);
    assert_eq!(
        cell_at(&buffer, &history, &layout, &cursor, 6),
        Cell { highlight: Highlight::CursorPadding, byte: None }
    );
    assert_eq!(cell_at(&buffer, &history, &layout, &cursor, 0), plain(0));
}

#[test]
fn the_cursor_class_wins_over_the_modified_class() {
    let mut buffer = ByteBuffer::load(vec![0, 1], "f", false);
    let layout = Layout::compute(22, 24, 2);
    let cursor = CursorModel::new(&layout);
    let mut history = EditHistory::new();
    let previous = buffer.write(0, 9).unwrap();
    history.push(0, previous);
    assert_eq!(cell_at(&buffer, &history, &layout, &cursor, 0), Cell { highlight: Highlight::Cursor, byte: Some(9) });
}

#[test]
fn cell_in_is_cell_at_of_the_index() {
    let buffer = ByteBuffer::load((0..10).collect(), "f", false);
    let layout = Layout::compute(22, 24, 10);
    let cursor = CursorModel::new(&layout);
    let history = EditHistory::new();
    for row in 0..4 {
        for column in 0..4 {
            assert_eq!(
                cell_in(&buffer, &history, &layout, &cursor, row, column),
                cell_at(&buffer, &history, &layout, &cursor, row * 4 + column)
            );
        }
    }
}

#[test]
fn render_row_has_every_cell_of_the_row() {
    let buffer = ByteBuffer::load((0..10).collect(), "f", false);
    let layout = Layout::compute(22, 24, 10);
    let cursor = CursorModel::new(&layout);
    let row = render_row(&buffer, &EditHistory::new(), &layout, &cursor, 2);
    assert_eq!(row, Row { offset: 8, cells: vec![plain(8), plain(9), padding(), padding()] });
}
