use astro_aski::draw::{ring_sector_outline, DrawQueue, OutlinePoint, RING_SECTOR_STEPS};

#[test]
fn new_queue_is_empty() {
    let q: DrawQueue<u32> = DrawQueue::new();
    assert_eq!(q.len(), 0);
}

#[test]
fn push_reports_zero_and_queues() {
    let mut q = DrawQueue::new();
    assert_eq!(q.push("camera"), 0);
    assert_eq!(q.push("ring"), 0);
    assert_eq!(q.len(), 2);
}

#[test]
fn take_all_replays_in_call_order() {
    let mut q = DrawQueue::new();
    for i in 0..5u32 {
        q.push(i * 10);
    }
    assert_eq!(q.take_all(), vec![0, 10, 20, 30, 40]);
    assert_eq!(q.len(), 0);
}

#[test]
fn take_all_twice_gives_nothing_the_second_time() {
    let mut q = DrawQueue::new();
    q.push('a');
    assert_eq!(q.take_all(), vec!['a']);
    assert_eq!(q.take_all(), Vec::<char>::new());
    q.push('b');
    assert_eq!(q.take_all(), vec!['b']);
}

fn outer(step: u32) -> OutlinePoint {
    OutlinePoint { outer: true, step }
}

fn inner(step: u32) -> OutlinePoint {
    OutlinePoint { outer: false, step }
}

#[test]
fn outline_of_a_single_segment() {
    assert_eq!(ring_sector_outline(0), vec![outer(0), inner(0)]);
    assert_eq!(ring_sector_outline(1), vec![outer(0), outer(1), inner(1), inner(0)]);
}

#[test]
fn outline_goes_out_then_back() {
    assert_eq!(
        ring_sector_outline(2),
        vec![outer(0), outer(1), outer(2), inner(2), inner(1), inner(0)]
    );
}

#[test]
fn outline_of_default_resolution() {
    assert_eq!(RING_SECTOR_STEPS, 30);
    let pts = ring_sector_outline(RING_SECTOR_STEPS);
    assert_eq!(pts.len(), 62);
    assert_eq!(pts[0], outer(0));
    assert_eq!(pts[30], outer(30));
    assert_eq!(pts[31], inner(30));
    assert_eq!(pts[61], inner(0));
    for s in 0..=30u32 {
        assert_eq!(pts.iter().filter(|p| **p == outer(s)).count(), 1);
        assert_eq!(pts.iter().filter(|p| **p == inner(s)).count(), 1);
    }
}
