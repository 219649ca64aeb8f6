use hexim::buffer::ByteBuffer;
use hexim::history::EditHistory;

#[test]
fn loaded_buffer_is_clean() {
    let buffer = ByteBuffer::load(vec![1, 2, 3], "data.bin", false);
    assert_eq!(buffer.len(), 3);
    assert_eq!(buffer.working(), &vec![1u8, 2, 3]);
    assert_eq!(buffer.baseline(), &vec![1u8, 2, 3]);
    assert_eq!(buffer.display_name(), "data.bin");
    assert!(!buffer.is_read_only());
    assert!(!buffer.is_dirty());
}

#[test]
fn zeroed_buffer_is_clean_and_untitled() {
    let buffer = ByteBuffer::zeroed(5, true);
    assert_eq!(buffer.working(), &vec![0u8; 5]);
    assert_eq!(buffer.baseline(), &vec![0u8; 5]);
    assert_eq!(buffer.display_name(), "untitled");
    assert!(buffer.is_read_only());
    assert!(!buffer.is_dirty());
}

#[test]
fn zeroed_buffer_of_length_zero_is_empty() {
    let buffer = ByteBuffer::zeroed(0, false);
    assert_eq!(buffer.len(), 0);
    assert_eq!(buffer.get(0), None);
    assert!(!buffer.is_dirty());
}

#[test]
fn get_is_none_past_the_end() {
    let buffer = ByteBuffer::load(vec![9, 8], "x", false);
    assert_eq!(buffer.get(0), Some(9));
    assert_eq!(buffer.get(1), Some(8));
    assert_eq!(buffer.get(2), None);
    assert_eq!(buffer.get(usize::MAX), None);
}

#[test]
fn write_changes_the_working_copy_only() {
    let mut buffer = ByteBuffer::load(vec![1, 2, 3], "x", false);
    assert_eq!(buffer.write(1, 0xAA), Some(2));
    assert_eq!(buffer.working(), &vec![1u8, 0xAA, 3]);
    assert_eq!(buffer.baseline(), &vec![1u8, 2, 3]);
    assert_eq!(buffer.display_name(), "x");
    assert!(buffer.is_dirty());
}

#[test]
fn write_past_the_end_changes_nothing() {
    let mut buffer = ByteBuffer::load(vec![1, 2, 3], "x", false);
    assert_eq!(buffer.write(3, 0xAA), None);
    assert_eq!(buffer.write(usize::MAX, 0xAA), None);
    assert_eq!(buffer.working(), &vec![1u8, 2, 3]);
    assert!(!buffer.is_dirty());
}

#[test]
fn write_of_the_same_byte_leaves_the_buffer_clean() {
    let mut buffer = ByteBuffer::load(vec![1, 2, 3], "x", false);
    assert_eq!(buffer.write(2, 3), Some(3));
    assert!(!buffer.is_dirty());
}

#[test]
fn dirty_at_the_last_byte_is_seen() {
    let mut buffer = ByteBuffer::load(vec![0; 100], "x", false);
    buffer.write(99, 1);
    assert!(buffer.is_dirty());
    buffer.write(99, 0);
    assert!(!buffer.is_dirty());
}

#[test]
fn mark_saved_makes_the_buffer_clean_under_the_new_name() {
    let mut buffer = ByteBuffer::load(vec![1, 2, 3], "old", false);
    buffer.write(0, 7);
    buffer.write(2, 9);
    buffer.mark_saved("new");
    assert!(!buffer.is_dirty());
    assert_eq!(buffer.working(), &vec![7u8, 2, 9]);
    assert_eq!(buffer.baseline(), &vec![7u8, 2, 9]);
    assert_eq!(buffer.display_name(), "new");
}

#[test]
fn new_history_is_empty() {
    let history = EditHistory::new();
    assert!(history.is_empty());
    assert_eq!(history.len(), 0);
    assert!(!history.names(0));
}

#[test]
fn push_never_merges_entries() {
    let mut history = EditHistory::new();
    history.push(3, 10);
    history.push(3, 10);
    history.push(5, 11);
    assert_eq!(history.len(), 3);
    assert!(!history.is_empty());
    assert!(history.names(3));
    assert!(history.names(5));
    assert!(!history.names(4));
}

#[test]
fn pop_and_restore_on_an_empty_log_changes_nothing() {
    let mut buffer = ByteBuffer::load(vec![1, 2, 3], "x", false);
    let mut history = EditHistory::new();
    assert_eq!(history.pop_and_restore(&mut buffer), None);
    assert_eq!(buffer.working(), &vec![1u8, 2, 3]);
    assert!(history.is_empty());
}

#[test]
fn pop_and_restore_writes_the_old_byte_back() {
    let mut buffer = ByteBuffer::load(vec![1, 2, 3], "x", false);
    let mut history = EditHistory::new();
    let previous = buffer.write(1, 0x55).unwrap();
    history.push(1, previous);
    assert_eq!(history.pop_and_restore(&mut buffer), Some(1));
    assert_eq!(buffer.working(), &vec![1u8, 2, 3]);
    assert!(history.is_empty());
    assert!(!buffer.is_dirty());
}

#[test]
fn pop_and_restore_takes_the_newest_entry_first() {
    let mut buffer = ByteBuffer::load(vec![1, 2, 3], "x", false);
    let mut history = EditHistory::new();
    let first = buffer.write(0, 0x10).unwrap();
    history.push(0, first);
    let second = buffer.write(0, 0x20).unwrap();
    history.push(0, second);
    let third = buffer.write(2, 0x30).unwrap();
    history.push(2, third);
    assert_eq!(history.pop_and_restore(&mut buffer), Some(2));
    assert_eq!(buffer.working(), &vec![0x20u8, 2, 3]);
    assert_eq!(history.pop_and_restore(&mut buffer), Some(0));
    assert_eq!(buffer.working(), &vec![0x10u8, 2, 3]);
    assert!(buffer.is_dirty());
    assert_eq!(history.pop_and_restore(&mut buffer), Some(0));
    assert_eq!(buffer.working(), &vec![1u8, 2, 3]);
    assert!(!buffer.is_dirty());
    assert_eq!(history.pop_and_restore(&mut buffer), None);
}

#[test]
fn pop_and_restore_never_touches_the_baseline() {
    let mut buffer = ByteBuffer::load(vec![1, 2, 3], "x", false);
    let mut history = EditHistory::new();
    let previous = buffer.write(1, 0x55).unwrap();
    history.push(1, previous);
    buffer.mark_saved("y");
    assert_eq!(history.pop_and_restore(&mut buffer), Some(1));
    assert_eq!(buffer.baseline(), &vec![1u8, 0x55, 3]);
    assert_eq!(buffer.working(), &vec![1u8, 2, 3]);
    assert!(buffer.is_dirty());
}

#[test]
fn pop_and_restore_drops_an_entry_past_the_end() {
    let mut buffer = ByteBuffer::load(vec![1, 2, 3], "x", false);
    let mut history = EditHistory::new();
    history.push(0, 9);
    history.push(7, 9);
    assert_eq!(history.pop_and_restore(&mut buffer), None);
    assert_eq!(buffer.working(), &vec![1u8, 2, 3]);
    assert_eq!(history.len(), 1);
    assert_eq!(history.pop_and_restore(&mut buffer), Some(0));
    assert_eq!(buffer.working(), &vec![9u8, 2, 3]);
}
