use royale_bot::geometry::P;

#[test]
fn distance_of_three_four_five() {
    assert_eq!(P(0, 0).near(&P(3, 4)), 5);
}

#[test]
fn distance_is_truncated() {
    assert_eq!(P(0, 0).near(&P(1, 1)), 1);
    assert_eq!(P(0, 0).near(&P(2, 2)), 2);
    assert_eq!(P(0, 0).near(&P(1, 0)), 1);
    assert_eq!(P(10, 10).near(&P(13, 15)), 5);
}

#[test]
fn distance_to_itself_is_zero() {
    assert_eq!(P(0, 0).near(&P(0, 0)), 0);
    assert_eq!(P(-7, 1920).near(&P(-7, 1920)), 0);
    assert_eq!(P(i32::MIN, i32::MAX).near(&P(i32::MIN, i32::MAX)), 0);
}

#[test]
fn distance_is_symmetric() {
    let points = [P(0, 0), P(3, 4), P(-5, 12), P(1920, 1000), P(i32::MAX, i32::MIN), P(17, -3)];
    for a in points.iter() {
        for b in points.iter() {
            assert_eq!(a.near(b), b.near(a));
        }
    }
}

#[test]
fn distance_across_the_map() {
    assert_eq!(P(100, 100).near(&P(120, 120)), 28);
    assert_eq!(P(500, 500).near(&P(120, 120)), 537);
    assert_eq!(P(0, 0).near(&P(1920, 1000)), 2164);
}

#[test]
fn distance_between_the_farthest_points() {
    // (2^32 - 1) * sqrt(2), cut down
    assert_eq!(P(i32::MIN, i32::MIN).near(&P(i32::MAX, i32::MAX)), 6074000998);
    assert_eq!(P(i32::MIN, 0).near(&P(i32::MAX, 0)), 4294967295);
}

#[test]
fn distance_just_below_a_whole_number() {
    // 2 * 2 + 2 * 2 = 3 * 3 - 1 and 8 * 8 + 4 * 4 = 9 * 9 - 1
    assert_eq!(P(0, 0).near(&P(2, 2)), 2);
    assert_eq!(P(0, 0).near(&P(8, 4)), 8);
    assert_eq!(P(0, 0).near(&P(46340, 46340)), 65534);
}

#[test]
fn coordinates_are_read_back() {
    let p = P(7, -9);
    assert_eq!(p.x(), 7);
    assert_eq!(p.y(), -9);
}
