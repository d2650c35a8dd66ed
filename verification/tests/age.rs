use hydration::birthdate::User;

#[test]
fn counts_age() {
    for ((y, m, d), expected) in vec![
        ((1990, 6, 4), 29),
        ((1990, 7, 4), 28),
        ((0, 1, 1), 2019),
        ((1970, 1, 1), 49),
        ((2019, 6, 25), 0),
    ] {
        let user = User::with_birthdate(y, m, d);
        assert_eq!(user.age(), expected);
    }
}

#[test]
fn age_is_zero_for_a_birth_that_is_still_to_come() {
    for (y, m, d) in vec![(2032, 6, 25), (2019, 6, 27), (2019, 7, 1), (3000, 6, 27), (9999, 6, 27)] {
        let user = User::with_birthdate(y, m, d);
        assert_eq!(user.age(), 0);
    }
}

#[test]
fn birthday_today_counts_as_reached() {
    assert_eq!(User::with_birthdate(2001, 6, 26).age(), 18);
    assert_eq!(User::with_birthdate(2001, 6, 27).age(), 17);
    assert_eq!(User::with_birthdate(2019, 6, 26).age(), 0);
    assert_eq!(User::with_birthdate(2016, 6, 27).age(), 2);
}

#[test]
fn age_stops_at_the_largest_value() {
    assert_eq!(User::with_birthdate(2019 - 65535, 1, 1).age(), u16::MAX);
    assert_eq!(User::with_birthdate(2019 - 65536, 1, 1).age(), u16::MAX);
    assert_eq!(User::with_birthdate(i32::MIN, 1, 1).age(), u16::MAX);
    assert_eq!(User::with_birthdate(2019 - 65534, 1, 1).age(), 65534);
    assert_eq!(User::with_birthdate(i32::MAX, 12, 31).age(), 0);
}

#[test]
fn adult_from_the_eighteenth_birthday() {
    assert!(User::with_birthdate(2001, 6, 26).is_adult());
    assert!(!User::with_birthdate(2001, 6, 27).is_adult());
    assert!(User::with_birthdate(1990, 6, 4).is_adult());
    assert!(!User::with_birthdate(2032, 6, 25).is_adult());
}
