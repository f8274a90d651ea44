use langview::debounce::{ChangeKind, Debouncer};

fn run(d: &mut Debouncer, events: &[(ChangeKind, u64)]) -> Vec<bool> {
    events.iter().map(|&(k, t)| d.on_event(k, t)).collect()
}

#[test]
fn burst_within_interval_forwards_first_only() {
    let mut d = Debouncer::new(1000);
    assert_eq!(run(&mut d, &[(ChangeKind::Content, 0), (ChangeKind::Content, 100), (ChangeKind::Content, 300)]), vec![true, false, false]);
    assert_eq!(d.last_emit, Some(0));
}

#[test]
fn event_after_window_is_forwarded() {
    let mut d = Debouncer::new(1000);
    assert_eq!(run(&mut d, &[(ChangeKind::Content, 0), (ChangeKind::Content, 1001), (ChangeKind::Content, 1500)]), vec![true, true, false]);
    assert_eq!(d.last_emit, Some(1001));
}

#[test]
fn elapsed_equal_to_interval_is_dropped() {
    let mut d = Debouncer::new(1000);
    assert!(d.on_event(ChangeKind::Content, 5000));
    assert!(!d.on_event(ChangeKind::Content, 6000));
    assert!(d.on_event(ChangeKind::Content, 6001));
}

#[test]
fn non_modification_events_are_ignored() {
    let mut d = Debouncer::new(1000);
    assert!(!d.on_event(ChangeKind::Metadata, 0));
    assert_eq!(d.last_emit, None);
    assert!(d.on_event(ChangeKind::Content, 10));
    assert!(!d.on_event(ChangeKind::Other, 5000));
    assert!(!d.on_event(ChangeKind::Metadata, 6000));
    assert_eq!(d.last_emit, Some(10));
}

#[test]
fn clock_going_back_is_no_elapsed_time() {
    let mut d = Debouncer::new(1000);
    assert!(d.on_event(ChangeKind::Content, 10_000));
    assert!(!d.on_event(ChangeKind::Content, 1));
    assert_eq!(d.last_emit, Some(10_000));
}

#[test]
fn zero_interval_forwards_every_later_event() {
    let mut d = Debouncer::new(0);
    assert_eq!(run(&mut d, &[(ChangeKind::Content, 1), (ChangeKind::Content, 1), (ChangeKind::Content, 2)]), vec![true, false, true]);
}

#[test]
fn burst_after_earlier_emission_forwards_first_only() {
    let mut d = Debouncer::new(1000);
    assert!(d.on_event(ChangeKind::Content, 0));
    let burst = [(ChangeKind::Content, 5000), (ChangeKind::Content, 5200), (ChangeKind::Content, 5999)];
    assert_eq!(run(&mut d, &burst), vec![true, false, false]);
    assert_eq!(d.last_emit, Some(5000));
}
