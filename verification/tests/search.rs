use royale_bot::geometry::P;
use royale_bot::manager::Site;
use royale_bot::search::{find_pick, Place};
use royale_bot::site::{CommonSite, OwnerType, SiteType};

fn free_sites(sites: &[(i32, i32, i32)]) -> Vec<CommonSite> {
    sites.iter().map(|(id, x, y)| CommonSite::new(*id, *x, *y)).collect()
}

#[test]
fn a_site_is_a_place() {
    let site = CommonSite::new(4, 30, 40);
    assert_eq!(site.position(), P(30, 40));
    assert!(site.is_fit(&(SiteType::Empty, OwnerType::NoOwner)));
    assert!(!site.is_fit(&(SiteType::Empty, OwnerType::Friendly)));
    assert!(!site.is_fit(&(SiteType::Tower, OwnerType::NoOwner)));
    assert!(site.ident_below(&CommonSite::new(5, 0, 0)));
    assert!(!site.ident_below(&CommonSite::new(4, 0, 0)));
    assert!(!site.ident_below(&CommonSite::new(3, 0, 0)));
    let plain = Site::new(9, 10, (7, 8));
    assert_eq!(plain.position(), P(7, 8));
    assert!(plain.is_fit(&(-1, -1)));
    assert!(!plain.is_fit(&(1, -1)));
    assert!(!plain.is_fit(&(-1, 0)));
    assert!(plain.ident_below(&Site::new(10, 0, (0, 0))));
    assert!(!plain.ident_below(&Site::new(9, 0, (0, 0))));
}

#[test]
fn pick_of_nothing_is_none() {
    let none: Vec<CommonSite> = Vec::new();
    let free = (SiteType::Empty, OwnerType::NoOwner);
    assert_eq!(find_pick(&none, &free, &P(0, 0), false), None);
    assert_eq!(find_pick(&none, &free, &P(0, 0), true), None);
    let sites = free_sites(&[(0, 1, 1), (1, 2, 2)]);
    let towers = (SiteType::Tower, OwnerType::Friendly);
    assert_eq!(find_pick(&sites, &towers, &P(0, 0), false), None);
    assert_eq!(find_pick(&sites, &towers, &P(0, 0), true), None);
}

#[test]
fn pick_is_the_nearest_or_the_farthest() {
    let sites = free_sites(&[(0, 100, 100), (1, 500, 500), (2, 130, 130)]);
    let free = (SiteType::Empty, OwnerType::NoOwner);
    assert_eq!(find_pick(&sites, &free, &P(120, 120), false), Some(2));
    assert_eq!(find_pick(&sites, &free, &P(120, 120), true), Some(1));
    assert_eq!(find_pick(&sites, &free, &P(600, 600), false), Some(1));
    assert_eq!(find_pick(&sites, &free, &P(600, 600), true), Some(0));
}

#[test]
fn pick_among_equals_has_the_lowest_identifier() {
    let sites = free_sites(&[(8, 10, 0), (3, 0, 10), (5, -10, 0), (4, 0, -10)]);
    let free = (SiteType::Empty, OwnerType::NoOwner);
    assert_eq!(find_pick(&sites, &free, &P(0, 0), false), Some(1));
    assert_eq!(find_pick(&sites, &free, &P(0, 0), true), Some(1));
}

#[test]
fn pick_passes_over_what_does_not_fit() {
    let mut sites = free_sites(&[(0, 1, 1), (1, 50, 50), (2, 900, 900)]);
    sites[0].update(1, 1, royale_bot::site::SiteOptions::new(0, 0));
    sites[2].update(1, 0, royale_bot::site::SiteOptions::new(0, 0));
    let towers = (SiteType::Tower, OwnerType::Friendly);
    assert_eq!(find_pick(&sites, &towers, &P(0, 0), false), Some(2));
    assert_eq!(find_pick(&sites, &towers, &P(0, 0), true), Some(2));
    let free = (SiteType::Empty, OwnerType::NoOwner);
    assert_eq!(find_pick(&sites, &free, &P(0, 0), true), Some(1));
}
