use marathon_cloud::progress::ProgressCounter;

fn run(total: u64, chunks: &[u64]) -> (Vec<u64>, Vec<bool>) {
    let mut c = ProgressCounter::new(total);
    let mut positions = Vec::new();
    let mut finished = Vec::new();
    for &len in chunks {
        finished.push(c.advance(len));
        positions.push(c.position());
    }
    (positions, finished)
}

#[test]
fn counter_reaches_total_whatever_the_chunks() {
    let (p1, _) = run(10, &[10]);
    let (p2, _) = run(10, &[3, 3, 4]);
    let (p3, _) = run(10, &[1, 1, 1, 1, 1, 1, 1, 1, 1, 1]);
    assert_eq!(p1.last(), Some(&10));
    assert_eq!(p2, vec![3, 6, 10]);
    assert_eq!(p3.last(), Some(&10));
}

#[test]
fn counter_is_clamped_to_total() {
    let (p, f) = run(10, &[6, 6, 6]);
    assert_eq!(p, vec![6, 10, 10]);
    assert_eq!(f, vec![false, true, true]);
}

#[test]
fn counter_below_total_is_not_finished() {
    let mut c = ProgressCounter::new(5);
    assert!(!c.advance(4));
    assert!(!c.is_finished());
    assert_eq!(c.total(), 5);
    assert!(c.advance(1));
}

#[test]
fn counter_survives_huge_chunks() {
    let mut c = ProgressCounter::new(u64::MAX);
    c.advance(u64::MAX - 1);
    assert!(c.advance(u64::MAX));
    assert_eq!(c.position(), u64::MAX);
}
