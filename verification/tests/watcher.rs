use sonic_forever_autosplitter::cells::ActKind;
use sonic_forever_autosplitter::watcher::{Pair, Watcher};

#[test]
fn new_watcher_is_empty() {
    let w: Watcher<u8> = Watcher::new();
    assert!(w.pair.is_none());
    assert_eq!(w.current_value(), None);
    assert_eq!(w.previous_value(), None);
}

#[test]
fn first_sample_reports_no_change() {
    let mut w: Watcher<u8> = Watcher::new();
    let pair = w.update(Some(7)).unwrap();
    assert_eq!(pair.previous, 7);
    assert_eq!(pair.current, 7);
    assert!(!pair.changed());
}

#[test]
fn absent_sample_before_first_keeps_watcher_empty() {
    let mut w: Watcher<u8> = Watcher::new();
    assert!(w.update(None).is_none());
    assert!(w.update(None).is_none());
    assert!(w.pair.is_none());
    let pair = w.update(Some(3)).unwrap();
    assert_eq!((pair.previous, pair.current), (3, 3));
    assert!(!pair.changed());
}

#[test]
fn present_sample_shifts_current_to_previous() {
    let mut w: Watcher<u8> = Watcher::new();
    w.update(Some(1));
    let pair = w.update(Some(2)).unwrap();
    assert_eq!((pair.previous, pair.current), (1, 2));
    assert!(pair.changed());
    let pair = w.update(Some(2)).unwrap();
    assert_eq!((pair.previous, pair.current), (2, 2));
    assert!(!pair.changed());
}

#[test]
fn absent_sample_latches_both_fields() {
    let mut w: Watcher<u8> = Watcher::new();
    w.update(Some(6));
    w.update(Some(7));
    for _ in 0..5 {
        let pair = w.update(None).unwrap();
        assert_eq!((pair.previous, pair.current), (6, 7));
    }
    assert_eq!(w.previous_value(), Some(6));
    assert_eq!(w.current_value(), Some(7));
    let pair = w.update(Some(9)).unwrap();
    assert_eq!((pair.previous, pair.current), (7, 9));
}

#[test]
fn mixed_sequence_never_changes_on_absent_samples() {
    let samples = [None, Some(4u8), None, Some(5), Some(5), None, None, Some(0), None];
    let mut w: Watcher<u8> = Watcher::new();
    for sample in samples {
        let before = w.pair.map(|p| (p.previous, p.current));
        let returned = w.update(sample).map(|p| (p.previous, p.current));
        let after = w.pair.map(|p| (p.previous, p.current));
        assert_eq!(returned, after);
        if sample.is_none() {
            assert_eq!(before, after);
        } else {
            assert_eq!(after.unwrap().1, sample.unwrap());
            assert_eq!(after.unwrap().0, before.map(|p| p.1).unwrap_or(sample.unwrap()));
        }
    }
    assert_eq!(w.pair.map(|p| (p.previous, p.current)), Some((5, 0)));
}

#[test]
fn infallible_update_always_advances() {
    let mut w: Watcher<u8> = Watcher::new();
    let pair = w.update_infallible(0);
    assert_eq!((pair.previous, pair.current), (0, 0));
    let pair = w.update_infallible(3);
    assert_eq!((pair.previous, pair.current), (0, 3));
    let pair = w.update_infallible(0);
    assert_eq!((pair.previous, pair.current), (3, 0));
    assert_eq!(w.pair.map(|p| (p.previous, p.current)), Some((3, 0)));
}

#[test]
fn changed_from_to_needs_both_values() {
    let pair = Pair { previous: 200u8, current: 201u8 };
    assert!(pair.changed_from_to(&200, &201));
    assert!(!pair.changed_from_to(&201, &200));
    assert!(!pair.changed_from_to(&200, &200));
    assert!(!pair.changed_from_to(&13, &201));
    let same = Pair { previous: 4u8, current: 4u8 };
    assert!(same.changed_from_to(&4, &4));
    assert!(!same.changed());
}

#[test]
fn watcher_works_on_acts() {
    let mut w: Watcher<ActKind> = Watcher::new();
    w.update(Some(ActKind::GreenHill1));
    let pair = w.update(Some(ActKind::GreenHill2)).unwrap();
    assert!(pair.changed());
    assert!(pair.changed_from_to(&ActKind::GreenHill1, &ActKind::GreenHill2));
    assert!(!pair.changed_from_to(&ActKind::GreenHill2, &ActKind::GreenHill1));
    let pair = w.update(None).unwrap();
    assert_eq!(pair.previous, ActKind::GreenHill1);
    assert_eq!(pair.current, ActKind::GreenHill2);
}
