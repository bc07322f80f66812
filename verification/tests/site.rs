use royale_bot::geometry::P;
use royale_bot::site::{CommonSite, OwnerType, SiteOptions, SiteType};

#[test]
fn owner_is_read_from_its_number() {
    assert_eq!(OwnerType::from(0), OwnerType::Friendly);
    assert_eq!(OwnerType::from(1), OwnerType::Enemy);
    assert_eq!(OwnerType::from(-1), OwnerType::NoOwner);
}

#[test]
fn unknown_owner_number_is_nobody() {
    assert_eq!(OwnerType::from(2), OwnerType::NoOwner);
    assert_eq!(OwnerType::from(-2), OwnerType::NoOwner);
    assert_eq!(OwnerType::from(i32::MAX), OwnerType::NoOwner);
    assert_eq!(OwnerType::from(i32::MIN), OwnerType::NoOwner);
}

#[test]
fn structure_is_read_from_its_number() {
    assert_eq!(SiteType::from(0), SiteType::Mine);
    assert_eq!(SiteType::from(1), SiteType::Tower);
    assert_eq!(SiteType::from(2), SiteType::Barracks);
    assert_eq!(SiteType::from(-1), SiteType::Empty);
}

#[test]
fn unknown_structure_number_is_an_empty_site() {
    assert_eq!(SiteType::from(3), SiteType::Empty);
    assert_eq!(SiteType::from(-7), SiteType::Empty);
    assert_eq!(SiteType::from(i32::MAX), SiteType::Empty);
}

#[test]
fn options_hold_what_they_were_made_with() {
    let options = SiteOptions::new(250, 3);
    assert_eq!(options.gold_remaining, 250);
    assert_eq!(options.max_mine_size, 3);
}

#[test]
fn new_site_is_empty_and_unowned() {
    let site = CommonSite::new(4, 100, 200);
    assert_eq!(site.site_id, 4);
    assert_eq!(site.p, P(100, 200));
    assert_eq!(site.radius, 0);
    assert_eq!(site.options, None);
    assert_eq!(site.s_type, SiteType::Empty);
    assert_eq!(site.s_owner, OwnerType::NoOwner);
    assert!(site.is(SiteType::Empty, OwnerType::NoOwner));
    assert!(!site.is_own());
    assert!(!site.is_mine());
    assert!(!site.is_tower());
    assert!(!site.is_barracks());
}

#[test]
fn update_takes_over_kind_and_owner() {
    let mut site = CommonSite::new(4, 100, 200);
    site.update(2, 0, SiteOptions::new(-1, -1));
    assert!(site.is_barracks());
    assert!(site.is_own());
    assert!(site.is(SiteType::Barracks, OwnerType::Friendly));
    assert!(!site.is(SiteType::Barracks, OwnerType::Enemy));
    assert!(!site.is(SiteType::Tower, OwnerType::Friendly));
    site.update(1, 1, SiteOptions::new(-1, -1));
    assert!(site.is_tower());
    assert!(!site.is_own());
    assert!(site.is(SiteType::Tower, OwnerType::Enemy));
}

#[test]
fn update_keeps_identifier_place_and_radius() {
    let mut site = CommonSite::new(9, -3, 8);
    site.radius = 50;
    site.update(0, 0, SiteOptions::new(120, 2));
    assert_eq!(site.site_id, 9);
    assert_eq!(site.p, P(-3, 8));
    assert_eq!(site.radius, 50);
}

#[test]
fn update_keeps_attributes_for_a_mine_only() {
    let mut site = CommonSite::new(1, 0, 0);
    site.update(0, 0, SiteOptions::new(120, 2));
    assert!(site.is_mine());
    assert_eq!(site.options, Some(SiteOptions::new(120, 2)));
    site.update(1, 0, SiteOptions::new(300, 400));
    assert!(site.is_tower());
    assert_eq!(site.options, None);
    site.update(-1, -1, SiteOptions::new(7, 7));
    assert_eq!(site.options, None);
    assert!(site.is(SiteType::Empty, OwnerType::NoOwner));
}

#[test]
fn owner_number_reads_back() {
    assert_eq!(OwnerType::Friendly.code(), 0);
    assert_eq!(OwnerType::Enemy.code(), 1);
    assert_eq!(OwnerType::NoOwner.code(), -1);
    for owner in [OwnerType::Friendly, OwnerType::Enemy, OwnerType::NoOwner] {
        assert_eq!(OwnerType::from(owner.code()), owner);
        assert_eq!(OwnerType::from(owner as i32), owner);
    }
    assert_eq!(OwnerType::Friendly as i32, 0);
    assert_eq!(OwnerType::Enemy as i32, 1);
}

#[test]
fn structure_number_reads_back() {
    assert_eq!(SiteType::Mine.code(), 0);
    assert_eq!(SiteType::Tower.code(), 1);
    assert_eq!(SiteType::Barracks.code(), 2);
    assert_eq!(SiteType::Empty.code(), -1);
    for kind in [SiteType::Mine, SiteType::Tower, SiteType::Barracks, SiteType::Empty] {
        assert_eq!(SiteType::from(kind.code()), kind);
        assert_eq!(SiteType::from(kind as i32), kind);
    }
    assert_eq!(SiteType::Mine as i32, 0);
    assert_eq!(SiteType::Tower as i32, 1);
    assert_eq!(SiteType::Barracks as i32, 2);
}
