use rutherford::scalar::{Scalar, Vec3};
use rutherford::trail::Trail;

fn point(x: f32) -> Vec3 {
    Vec3 { x: Scalar { bits: x.to_bits() }, y: Scalar::zero(), z: Scalar::zero() }
}

#[test]
fn new_trail_is_filled_with_first_position() {
    let trail = Trail::new(3, point(1.0));
    assert_eq!(trail.capacity(), 3);
    assert_eq!(trail.positions(), vec![point(1.0), point(1.0), point(1.0)]);
}

#[test]
fn record_drops_oldest_and_appends_newest() {
    let mut trail = Trail::new(3, point(0.0));
    trail.record(point(1.0));
    assert_eq!(trail.positions(), vec![point(0.0), point(0.0), point(1.0)]);
    trail.record(point(2.0));
    assert_eq!(trail.positions(), vec![point(0.0), point(1.0), point(2.0)]);
    trail.record(point(3.0));
    assert_eq!(trail.positions(), vec![point(1.0), point(2.0), point(3.0)]);
    trail.record(point(4.0));
    assert_eq!(trail.positions(), vec![point(2.0), point(3.0), point(4.0)]);
    trail.record(point(5.0));
    assert_eq!(trail.positions(), vec![point(3.0), point(4.0), point(5.0)]);
    assert_eq!(trail.capacity(), 3);
}

#[test]
fn get_counts_back_from_newest() {
    let mut trail = Trail::new(3, point(0.0));
    trail.record(point(1.0));
    trail.record(point(2.0));
    trail.record(point(3.0));
    trail.record(point(4.0));
    assert_eq!(trail.get(0), Some(point(4.0)));
    assert_eq!(trail.get(1), Some(point(3.0)));
    assert_eq!(trail.get(2), Some(point(2.0)));
    assert_eq!(trail.get(3), None);
    assert_eq!(trail.get(usize::MAX), None);
}

#[test]
fn trail_of_one_slot_holds_latest() {
    let mut trail = Trail::new(1, point(0.0));
    trail.record(point(1.0));
    trail.record(point(2.0));
    assert_eq!(trail.positions(), vec![point(2.0)]);
    assert_eq!(trail.get(0), Some(point(2.0)));
    assert_eq!(trail.get(1), None);
}

#[test]
fn trail_without_slots_stays_empty() {
    let mut trail = Trail::new(0, point(0.0));
    trail.record(point(1.0));
    assert_eq!(trail.capacity(), 0);
    assert_eq!(trail.positions(), Vec::<Vec3>::new());
    assert_eq!(trail.get(0), None);
}

#[test]
fn trail_of_fifty_keeps_last_fifty() {
    let mut trail = Trail::new(50, point(0.0));
    for step in 1..=120 {
        trail.record(point(step as f32));
    }
    let held = trail.positions();
    assert_eq!(held.len(), 50);
    for (i, position) in held.iter().enumerate() {
        assert_eq!(*position, point((71 + i) as f32));
    }
}
