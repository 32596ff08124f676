use franka_rs::logging::Logger;

#[derive(Debug, Clone, PartialEq)]
struct Entry {
    time_ms: u64,
    command: Option<u64>,
}

fn dummy_state() -> Entry {
    Entry { time_ms: 0, command: None }
}

#[test]
fn empty_logger() {
    let logger: Logger<Entry> = Logger::new(10);
    assert!(logger.is_empty());
    assert_eq!(logger.len(), 0);
    assert!(logger.flush().is_empty());
}

#[test]
fn log_and_flush() {
    let mut logger = Logger::new(5);
    for _ in 0..3 {
        logger.log(dummy_state());
    }
    assert_eq!(logger.len(), 3);
    let entries = logger.flush();
    assert_eq!(entries.len(), 3);
}

#[test]
fn ring_buffer_wraps() {
    let mut logger = Logger::new(3);
    for _ in 0..5 {
        logger.log(dummy_state());
    }
    assert_eq!(logger.len(), 3);
    let entries = logger.flush();
    assert_eq!(entries.len(), 3);
}

#[test]
fn clear_resets() {
    let mut logger = Logger::new(10);
    logger.log(dummy_state());
    logger.clear();
    assert!(logger.is_empty());
    assert!(logger.flush().is_empty());
}

#[test]
fn ring_buffer_keeps_latest_in_order() {
    let mut logger = Logger::new(3);
    for t in 0..7u64 {
        logger.log(Entry { time_ms: t, command: Some(t * 10) });
    }
    let times: Vec<u64> = logger.flush().iter().map(|e| e.time_ms).collect();
    assert_eq!(times, vec![4, 5, 6]);
    logger.log(Entry { time_ms: 7, command: None });
    let times: Vec<u64> = logger.flush().iter().map(|e| e.time_ms).collect();
    assert_eq!(times, vec![5, 6, 7]);
    logger.clear();
    logger.log(Entry { time_ms: 8, command: None });
    assert_eq!(logger.flush(), vec![Entry { time_ms: 8, command: None }]);
}

#[test]
fn logger_length_is_bounded_by_capacity() {
    let mut small = Logger::new(5);
    for t in 0..3u64 {
        small.log(Entry { time_ms: t, command: None });
    }
    assert_eq!(small.len(), 3);
    let mut tiny = Logger::new(3);
    for t in 0..5u64 {
        tiny.log(Entry { time_ms: t, command: Some(t) });
        assert!(tiny.len() <= 3);
    }
    assert_eq!(tiny.len(), 3);
    let kept: Vec<u64> = tiny.flush().iter().map(|e| e.time_ms).collect();
    assert_eq!(kept, vec![2, 3, 4]);
}
