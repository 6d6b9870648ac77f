use inscription_indexing::cursor::SequenceCursor;

#[test]
fn cursor_resumes_at_stored_value() {
    let cursor = SequenceCursor::new(42);
    assert_eq!(cursor.pick_next(), 42);
    assert_eq!(cursor.committed_next(), 42);
}

#[test]
fn cursor_reading_does_not_advance() {
    let cursor = SequenceCursor::new(5);
    assert_eq!(cursor.pick_next(), 5);
    assert_eq!(cursor.pick_next(), 5);
}

#[test]
fn cursor_advance_is_not_durable_before_commit() {
    let mut cursor = SequenceCursor::new(10);
    cursor.advance();
    cursor.advance();
    assert_eq!(cursor.pick_next(), 12);
    assert_eq!(cursor.committed_next(), 10);
}

#[test]
fn cursor_commit_makes_advance_durable() {
    let mut cursor = SequenceCursor::new(10);
    cursor.advance();
    cursor.advance();
    cursor.advance();
    cursor.commit();
    assert_eq!(cursor.committed_next(), 13);
    assert_eq!(cursor.pick_next(), 13);
}

#[test]
fn cursor_rollback_takes_advance_back() {
    let mut cursor = SequenceCursor::new(10);
    cursor.advance();
    cursor.advance();
    cursor.rollback();
    assert_eq!(cursor.committed_next(), 10);
    assert_eq!(cursor.pick_next(), 10);
}

#[test]
fn cursor_durable_value_never_decreases() {
    let mut cursor = SequenceCursor::new(0);
    let mut last = cursor.committed_next();
    for round in 0..20u64 {
        for _ in 0..(round % 4) {
            cursor.advance();
        }
        if round % 3 == 0 {
            cursor.rollback();
        } else {
            cursor.commit();
        }
        assert!(cursor.committed_next() >= last);
        assert_eq!(cursor.committed_next(), cursor.pick_next());
        last = cursor.committed_next();
    }
    assert_eq!(last, 19);
}

#[test]
fn cursor_reaches_the_last_number() {
    let mut cursor = SequenceCursor::new(u64::MAX - 1);
    cursor.advance();
    assert_eq!(cursor.pick_next(), u64::MAX);
    cursor.commit();
    assert_eq!(cursor.committed_next(), u64::MAX);
}
