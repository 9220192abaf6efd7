use pixel_undo::undo::UndoQueue;

#[test]
fn undo_queue_starts_on_seed() {
    let q: UndoQueue<u32> = UndoQueue::new(7);
    assert_eq!(*q.current(), 7);
}

#[test]
fn undo_queue_push_moves_cursor() {
    let mut q: UndoQueue<u32> = UndoQueue::new(1);
    q.push(2);
    q.push(3);
    assert_eq!(*q.current(), 3);
    q.undo();
    assert_eq!(*q.current(), 2);
    q.undo();
    assert_eq!(*q.current(), 1);
    q.redo();
    assert_eq!(*q.current(), 2);
    q.redo();
    assert_eq!(*q.current(), 3);
}

#[test]
fn undo_queue_clamps_at_both_ends() {
    let mut q: UndoQueue<u32> = UndoQueue::new(1);
    q.undo();
    assert_eq!(*q.current(), 1);
    q.push(2);
    q.redo();
    assert_eq!(*q.current(), 2);
}

#[test]
fn undo_queue_push_truncates_redo_branch() {
    let mut q: UndoQueue<u32> = UndoQueue::new(1);
    q.push(2);
    q.push(3);
    q.undo();
    q.undo();
    q.push(9);
    assert_eq!(*q.current(), 9);
    q.redo();
    assert_eq!(*q.current(), 9);
    q.undo();
    assert_eq!(*q.current(), 1);
}

#[test]
fn undo_queue_clear_commits_like_push() {
    let mut q: UndoQueue<u32> = UndoQueue::new(1);
    q.push(2);
    q.clear(0);
    assert_eq!(*q.current(), 0);
    q.undo();
    assert_eq!(*q.current(), 2);
}
