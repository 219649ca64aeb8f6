use hexim::cursor::{CursorModel, Move};
use hexim::layout::Layout;

fn run(cursor: &mut CursorModel, layout: &Layout, step: Move, times: usize) {
    for _ in 0..times {
        cursor.apply(layout, step);
    }
}

#[test]
fn new_cursor_is_on_the_first_cell() {
    let layout = Layout::compute(22, 10, 4);
    let cursor = CursorModel::new(&layout);
    assert_eq!(cursor, CursorModel { screen_x: 12, screen_y: 1, scroll_top: 0, byte_index: Some(0) });
}

#[test]
fn new_cursor_on_an_empty_buffer_is_on_no_byte() {
    let layout = Layout::compute(22, 10, 0);
    let cursor = CursorModel::new(&layout);
    assert_eq!(cursor, CursorModel { screen_x: 12, screen_y: 1, scroll_top: 0, byte_index: None });
}

#[test]
fn move_right_goes_one_cell() {
    let layout = Layout::compute(80, 24, 100);
    let mut cursor = CursorModel::new(&layout);
    cursor.move_right(&layout);
    assert_eq!(cursor, CursorModel { screen_x: 15, screen_y: 1, scroll_top: 0, byte_index: Some(1) });
    cursor.move_right(&layout);
    assert_eq!(cursor, CursorModel { screen_x: 18, screen_y: 1, scroll_top: 0, byte_index: Some(2) });
}

#[test]
fn move_right_stops_two_columns_short_of_the_width() {
    let layout = Layout::compute(80, 24, 100);
    let mut cursor = CursorModel::new(&layout);
    run(&mut cursor, &layout, Move::Right, 100);
    assert_eq!(cursor.screen_x, 78);
    assert_eq!(cursor.byte_index, Some(22));
    assert_eq!(cursor.screen_y, 1);

    let narrow = Layout::compute(22, 24, 100);
    let mut cursor = CursorModel::new(&narrow);
    run(&mut cursor, &narrow, Move::Right, 100);
    assert_eq!(cursor.screen_x, 18);
    assert_eq!(cursor.byte_index, Some(2));
}

#[test]
fn move_right_never_wraps_to_the_next_row() {
    for width in 0u16..120 {
        let layout = Layout::compute(width, 24, 1000);
        let mut cursor = CursorModel::new(&layout);
        run(&mut cursor, &layout, Move::Right, 200);
        assert_eq!(cursor.screen_y, 1);
        assert!(cursor.byte_index.unwrap() < layout.columns_per_row, "width {}", width);
        assert!(cursor.screen_x == 12 || cursor.screen_x + 2 <= width as usize, "width {}", width);
    }
}

#[test]
fn move_left_stops_at_the_first_cell() {
    let layout = Layout::compute(80, 24, 100);
    let mut cursor = CursorModel::new(&layout);
    cursor.move_left(&layout);
    assert_eq!(cursor.screen_x, 12);
    run(&mut cursor, &layout, Move::Right, 3);
    cursor.move_left(&layout);
    assert_eq!(cursor.screen_x, 18);
    assert_eq!(cursor.byte_index, Some(2));
    run(&mut cursor, &layout, Move::Left, 10);
    assert_eq!(cursor.screen_x, 12);
    assert_eq!(cursor.byte_index, Some(0));
}

#[test]
fn move_down_stops_at_the_last_row() {
    let layout = Layout::compute(22, 24, 10);
    let mut cursor = CursorModel::new(&layout);
    cursor.move_down(&layout);
    assert_eq!(cursor, CursorModel { screen_x: 12, screen_y: 2, scroll_top: 0, byte_index: Some(4) });
    cursor.move_down(&layout);
    assert_eq!(cursor.screen_y, 3);
    assert_eq!(cursor.byte_index, Some(8));
    cursor.move_down(&layout);
    assert_eq!(cursor.screen_y, 3);
}

#[test]
fn moving_onto_padding_gives_no_byte() {
    let layout = Layout::compute(22, 24, 6);
    let mut cursor = CursorModel::new(&layout);
    run(&mut cursor, &layout, Move::Right, 2);
    cursor.move_down(&layout);
    assert_eq!(cursor.screen_x, 18);
    assert_eq!(cursor.screen_y, 2);
    assert_eq!(cursor.byte_index, None);
    cursor.move_left(&layout);
    assert_eq!(cursor.byte_index, Some(5));
}

#[test]
fn window_follows_the_cursor_down() {
    let layout = Layout::compute(22, 5, 40);
    assert_eq!(layout.visible_rows, 2);
    assert_eq!(layout.total_rows, 10);
    let mut cursor = CursorModel::new(&layout);
    cursor.move_down(&layout);
    assert_eq!((cursor.screen_y, cursor.scroll_top), (2, 0));
    cursor.move_down(&layout);
    assert_eq!((cursor.screen_y, cursor.scroll_top), (3, 1));
    cursor.move_down(&layout);
    assert_eq!((cursor.screen_y, cursor.scroll_top), (4, 2));
    run(&mut cursor, &layout, Move::Down, 6);
    assert_eq!((cursor.screen_y, cursor.scroll_top), (10, 8));
    run(&mut cursor, &layout, Move::Down, 50);
    assert_eq!((cursor.screen_y, cursor.scroll_top), (10, 8));
}

#[test]
fn window_follows_the_cursor_up() {
    let layout = Layout::compute(22, 5, 40);
    let mut cursor = CursorModel::new(&layout);
    run(&mut cursor, &layout, Move::Down, 9);
    assert_eq!((cursor.screen_y, cursor.scroll_top), (10, 8));
    cursor.move_up(&layout);
    assert_eq!((cursor.screen_y, cursor.scroll_top), (9, 8));
    cursor.move_up(&layout);
    assert_eq!((cursor.screen_y, cursor.scroll_top), (8, 7));
    run(&mut cursor, &layout, Move::Up, 7);
    assert_eq!((cursor.screen_y, cursor.scroll_top), (1, 0));
    run(&mut cursor, &layout, Move::Up, 5);
    assert_eq!((cursor.screen_y, cursor.scroll_top), (1, 0));
}

#[test]
fn window_never_scrolls_when_the_grid_fits() {
    let layout = Layout::compute(22, 24, 40);
    let mut cursor = CursorModel::new(&layout);
    run(&mut cursor, &layout, Move::Down, 50);
    assert_eq!((cursor.screen_y, cursor.scroll_top), (10, 0));
}

#[test]
fn scroll_top_stays_within_bounds_for_any_run_of_steps() {
    let steps = [
        Move::Down, Move::Down, Move::Right, Move::Down, Move::Up, Move::Up, Move::Down, Move::Left,
        Move::Down, Move::Down, Move::Down, Move::Up, Move::Down, Move::Down, Move::Down, Move::Down,
    ];
    for height in [0u16, 3, 4, 5, 8, 24] {
        for length in [0usize, 1, 4, 5, 23, 40, 400] {
            let layout = Layout::compute(22, height, length);
            let bound = layout.total_rows.saturating_sub(layout.visible_rows);
            let mut cursor = CursorModel::new(&layout);
            for round in 0..20 {
                for step in steps {
                    cursor.apply(&layout, step);
                    assert!(cursor.scroll_top <= bound, "height {} length {} round {}", height, length, round);
                    assert!(cursor.screen_y >= 1);
                    assert!(cursor.screen_y <= layout.total_rows.max(1));
                    if layout.visible_rows >= 1 {
                        assert!(cursor.scroll_top <= cursor.screen_y - 1);
                        assert!(cursor.screen_y - 1 < cursor.scroll_top + layout.visible_rows);
                    }
                    assert_eq!(cursor.byte_index, layout.offset_at(cursor.screen_x, cursor.screen_y));
                }
            }
        }
    }
}

#[test]
fn sideways_steps_leave_the_window() {
    let layout = Layout::compute(22, 5, 40);
    let mut cursor = CursorModel::new(&layout);
    run(&mut cursor, &layout, Move::Down, 5);
    let top = cursor.scroll_top;
    run(&mut cursor, &layout, Move::Right, 5);
    assert_eq!(cursor.scroll_top, top);
    run(&mut cursor, &layout, Move::Left, 5);
    assert_eq!(cursor.scroll_top, top);
}

#[test]
fn set_pos_takes_cells_within_bounds() {
    let layout = Layout::compute(22, 24, 10);
    let mut cursor = CursorModel::new(&layout);
    assert!(cursor.set_pos(&layout, 15, 2));
    assert_eq!(cursor, CursorModel { screen_x: 15, screen_y: 2, scroll_top: 0, byte_index: Some(5) });
    assert!(cursor.set_pos(&layout, 18, 3));
    assert_eq!(cursor.byte_index, None);
}

#[test]
fn set_pos_refuses_everything_else() {
    let layout = Layout::compute(22, 24, 10);
    let mut cursor = CursorModel::new(&layout);
    let before = cursor;
    for (x, y) in [(11, 1), (13, 1), (21, 1), (12, 0), (12, 4), (0, 0), (usize::MAX, usize::MAX)] {
        assert!(!cursor.set_pos(&layout, x, y), "position {:?}", (x, y));
        assert_eq!(cursor, before);
    }
}

#[test]
fn apply_is_the_named_move() {
    let layout = Layout::compute(40, 5, 100);
    let mut a = CursorModel::new(&layout);
    let mut b = a;
    a.apply(&layout, Move::Right);
    b.move_right(&layout);
    assert_eq!(a, b);
    a.apply(&layout, Move::Down);
    b.move_down(&layout);
    assert_eq!(a, b);
    a.apply(&layout, Move::Left);
    b.move_left(&layout);
    assert_eq!(a, b);
    a.apply(&layout, Move::Up);
    b.move_up(&layout);
    assert_eq!(a, b);
}
