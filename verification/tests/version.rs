use hydration::version::{EventNumber, Version};

#[test]
fn zero_is_the_initial_version() {
    assert_eq!(Version::new(0), Version::Initial);
    assert_eq!(Version::new(0).number(), 0);
}

#[test]
fn other_numbers_are_event_numbers() {
    assert_eq!(Version::new(1), Version::Number(EventNumber::min_value()));
    assert_eq!(Version::new(7).number(), 7);
    assert_eq!(Version::new(u64::MAX).number(), u64::MAX);
    assert_ne!(Version::new(1), Version::Initial);
}

#[test]
fn default_version_is_initial() {
    assert_eq!(Version::default(), Version::Initial);
}

#[test]
fn increment_goes_from_initial_to_one_and_on() {
    let mut v = Version::Initial;
    v.incr();
    assert_eq!(v, Version::new(1));
    v.incr();
    assert_eq!(v, Version::new(2));
    let mut w = Version::new(u64::MAX - 1);
    w.incr();
    assert_eq!(w, Version::new(u64::MAX));
}

#[test]
fn event_number_increments_by_one() {
    let mut n = EventNumber::min_value();
    assert_eq!(n.get(), 1);
    n.incr();
    assert_eq!(n.get(), 2);
}

#[test]
fn versions_are_totally_ordered() {
    assert!(Version::Initial < Version::new(1));
    assert!(Version::new(1) < Version::new(2));
    assert!(Version::new(2) > Version::Initial);
    assert!(Version::new(3) <= Version::new(3));
    assert_eq!(Version::new(4).cmp(&Version::new(5)), std::cmp::Ordering::Less);
    assert_eq!(Version::Initial.cmp(&Version::new(1)), std::cmp::Ordering::Less);
    assert_eq!(Version::new(9).cmp(&Version::new(9)), std::cmp::Ordering::Equal);
    assert_eq!(
        Version::new(9).partial_cmp(&Version::new(2)),
        Some(std::cmp::Ordering::Greater)
    );
    assert!(EventNumber::min_value() <= EventNumber::min_value());
}
