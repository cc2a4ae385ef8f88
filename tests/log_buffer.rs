use shroombox::log_buffer::LOG_CAPACITY;
use shroombox::BoundedLogBuffer;

fn lines(v: &[&str]) -> Vec<String> {
    v.iter().map(|s| s.to_string()).collect()
}

#[test]
fn overflow_by_one_evicts_oldest() {
    let mut b = BoundedLogBuffer::new(3);
    for l in ["a", "b", "c", "d"] {
        b.append(l.to_string());
    }
    assert_eq!(b.snapshot(), lines(&["b", "c", "d"]));
}

#[test]
fn under_capacity_keeps_everything_in_order() {
    let mut b = BoundedLogBuffer::new(5);
    b.append("x".to_string());
    b.append("y".to_string());
    assert_eq!(b.snapshot(), lines(&["x", "y"]));
    assert_eq!(b.len(), 2);
}

#[test]
fn length_never_exceeds_capacity_and_keeps_most_recent() {
    let mut b = BoundedLogBuffer::new(4);
    let mut all: Vec<String> = Vec::new();
    for i in 0..25 {
        let l = format!("line {}", i);
        all.push(l.clone());
        b.append(l);
        assert!(b.len() <= 4);
        let start = if all.len() > 4 { all.len() - 4 } else { 0 };
        assert_eq!(b.snapshot(), all[start..].to_vec());
    }
}

#[test]
fn default_capacity_keeps_last_hundred() {
    let mut b = BoundedLogBuffer::new(LOG_CAPACITY);
    for i in 0..150 {
        b.append(i.to_string());
    }
    let snap = b.snapshot();
    assert_eq!(snap.len(), 100);
    assert_eq!(snap[0], "50");
    assert_eq!(snap[99], "149");
    assert_eq!(b.capacity(), 100);
}

#[test]
fn empty_buffer_snapshot() {
    let b = BoundedLogBuffer::new(3);
    assert!(b.snapshot().is_empty());
    assert_eq!(b.len(), 0);
}

#[test]
fn zero_capacity_keeps_nothing() {
    let mut b = BoundedLogBuffer::new(0);
    b.append("a".to_string());
    assert!(b.snapshot().is_empty());
}

#[test]
fn snapshot_does_not_mutate() {
    let mut b = BoundedLogBuffer::new(2);
    b.append("a".to_string());
    let first = b.snapshot();
    let second = b.snapshot();
    assert_eq!(first, second);
    assert_eq!(b.len(), 1);
}
