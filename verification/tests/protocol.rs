use royale_bot::geometry::P;
use royale_bot::protocol::{
    parse_fields, parse_int, parse_observation, parse_site, parse_turn, parse_unit, Observation,
    SiteEntry, TurnHeader,
};
use royale_bot::resource_manager::ResourceManager;
use royale_bot::site::SiteOptions;
use royale_bot::unit::Unit;

#[test]
fn whole_numbers_are_read() {
    assert_eq!(parse_int(b"0"), Some(0));
    assert_eq!(parse_int(b"7"), Some(7));
    assert_eq!(parse_int(b"1920"), Some(1920));
    assert_eq!(parse_int(b"-1"), Some(-1));
    assert_eq!(parse_int(b"+15"), Some(15));
    assert_eq!(parse_int(b"007"), Some(7));
    assert_eq!(parse_int(b"-0"), Some(0));
}

#[test]
fn blanks_around_a_number_are_set_aside() {
    assert_eq!(parse_int(b"24\n"), Some(24));
    assert_eq!(parse_int(b"24\r\n"), Some(24));
    assert_eq!(parse_int(b"  24\t"), Some(24));
    assert_eq!(parse_int(b"\n-3 "), Some(-3));
    assert_eq!(parse_int(b"\x0b5\x0c"), Some(5));
}

#[test]
fn the_range_of_numbers_is_that_of_i32() {
    assert_eq!(parse_int(b"2147483647"), Some(i32::MAX));
    assert_eq!(parse_int(b"-2147483648"), Some(i32::MIN));
    assert_eq!(parse_int(b"2147483648"), None);
    assert_eq!(parse_int(b"-2147483649"), None);
    assert_eq!(parse_int(b"+2147483648"), None);
    assert_eq!(parse_int(b"99999999999999999999999999"), None);
    assert_eq!(parse_int(b"-99999999999999999999999999"), None);
    assert_eq!(parse_int(b"00000000000000000000000000012"), Some(12));
    assert_eq!(parse_int(b"-0000000000002147483648"), Some(i32::MIN));
}

#[test]
fn what_is_no_number_is_turned_down() {
    assert_eq!(parse_int(b""), None);
    assert_eq!(parse_int(b" "), None);
    assert_eq!(parse_int(b"\n"), None);
    assert_eq!(parse_int(b"-"), None);
    assert_eq!(parse_int(b"+"), None);
    assert_eq!(parse_int(b"+-1"), None);
    assert_eq!(parse_int(b"--1"), None);
    assert_eq!(parse_int(b"1-"), None);
    assert_eq!(parse_int(b"12a"), None);
    assert_eq!(parse_int(b"a12"), None);
    assert_eq!(parse_int(b"1 2"), None);
    assert_eq!(parse_int(b"- 1"), None);
    assert_eq!(parse_int(b"1.5"), None);
    assert_eq!(parse_int(b"0x10"), None);
    assert_eq!(parse_int("٣".as_bytes()), None);
}

#[test]
fn numbers_are_read_as_std_reads_them() {
    let tokens = [
        "0", "-0", "+0", "5", "-5", "+5", "0005", "2147483647", "2147483648", "-2147483648",
        "-2147483649", "", "+", "-", "5 ", " 5", "5\n", "5x", "x", "--5", "+-5", "5+",
        "4294967296", "18446744073709551616", "1_000",
    ];
    for token in tokens.iter() {
        assert_eq!(parse_int(token.as_bytes()), token.trim().parse::<i32>().ok());
    }
}

#[test]
fn fields_are_read_in_order() {
    assert_eq!(parse_fields(b"1 2 3", 3), Some(vec![1, 2, 3]));
    assert_eq!(parse_fields(b"10 -20 +30\n", 3), Some(vec![10, -20, 30]));
    assert_eq!(parse_fields(b"42", 1), Some(vec![42]));
    assert_eq!(parse_fields(b"42\n", 1), Some(vec![42]));
}

#[test]
fn fields_after_the_ones_asked_for_are_not_read() {
    assert_eq!(parse_fields(b"1 2 3", 2), Some(vec![1, 2]));
    assert_eq!(parse_fields(b"1 2 x y", 2), Some(vec![1, 2]));
    assert_eq!(parse_fields(b"1 2 ", 2), Some(vec![1, 2]));
    assert_eq!(parse_fields(b"anything", 0), Some(vec![]));
    assert_eq!(parse_fields(b"", 0), Some(vec![]));
}

#[test]
fn too_few_fields_are_turned_down() {
    assert_eq!(parse_fields(b"1 2 3", 4), None);
    assert_eq!(parse_fields(b"", 1), None);
    assert_eq!(parse_fields(b"\n", 1), None);
    assert_eq!(parse_fields(b"1", 2), None);
    assert_eq!(parse_fields(b"1 ", 2), None);
}

#[test]
fn a_field_that_is_no_number_is_turned_down() {
    assert_eq!(parse_fields(b"1 x 3", 3), None);
    assert_eq!(parse_fields(b"1  3", 2), None);
    assert_eq!(parse_fields(b" 1 2", 2), None);
    assert_eq!(parse_fields(b"1 2147483648", 2), None);
    assert_eq!(parse_fields(b"1,2", 1), None);
}

#[test]
fn a_tab_is_no_separator() {
    assert_eq!(parse_fields(b"1\t2", 2), None);
    assert_eq!(parse_fields(b"1\t 2", 2), Some(vec![1, 2]));
    assert_eq!(parse_fields(b"1\t2", 1), None);
}

#[test]
fn setup_line_of_a_site() {
    assert_eq!(
        parse_site(b"0 100 100 50\n"),
        Some(SiteEntry { site_id: 0, p: P(100, 100), radius: 50 })
    );
    assert_eq!(
        parse_site(b"17 1820 -4 33"),
        Some(SiteEntry { site_id: 17, p: P(1820, -4), radius: 33 })
    );
    assert_eq!(parse_site(b"0 100 100"), None);
    assert_eq!(parse_site(b"0 100 100 x"), None);
    assert_eq!(parse_site(b""), None);
}

#[test]
fn first_line_of_a_turn() {
    assert_eq!(parse_turn(b"100 -1\n"), Some(TurnHeader { gold: 100, touched_site: -1 }));
    assert_eq!(parse_turn(b"0 3"), Some(TurnHeader { gold: 0, touched_site: 3 }));
    assert_eq!(parse_turn(b"100"), None);
    assert_eq!(parse_turn(b"100 none"), None);
}

#[test]
fn turn_line_of_a_site() {
    assert_eq!(
        parse_observation(b"4 -1 -1 0 0 120 3\n"),
        Some(Observation { site_id: 4, structure_type: 0, owner: 0, options: SiteOptions::new(120, 3) })
    );
    assert_eq!(
        parse_observation(b"2 9 8 2 1 0 1"),
        Some(Observation { site_id: 2, structure_type: 2, owner: 1, options: SiteOptions::new(0, 1) })
    );
    assert_eq!(parse_observation(b"4 -1 -1 0 0 120"), None);
    assert_eq!(parse_observation(b"4 -1 ? 0 0 120 3"), None);
}

#[test]
fn line_of_a_unit() {
    assert_eq!(parse_unit(b"120 130 0 -1 100\n"), Some(Unit::new(-1, (120, 130), 0, 100)));
    assert_eq!(parse_unit(b"5 6 1 2 40"), Some(Unit::new(2, (5, 6), 1, 40)));
    assert_eq!(parse_unit(b"120 130 0 -1"), None);
    assert_eq!(parse_unit(b"120 130 0 queen 100"), None);
}

#[test]
fn a_game_from_its_lines() {
    let mut manager = ResourceManager::new();
    assert_eq!(parse_int(b"2\n"), Some(2));
    for line in ["0 100 100 50\n", "1 500 500 50\n"] {
        let site = parse_site(line.as_bytes()).unwrap();
        assert_eq!(manager.upsert_initial(site.site_id, site.p, site.radius), Ok(()));
    }
    let turn = parse_turn(b"0 0\n").unwrap();
    manager.begin_turn(turn.gold);
    for line in ["0 -1 -1 -1 -1 -1 -1\n", "1 -1 -1 -1 -1 -1 -1\n"] {
        let seen = parse_observation(line.as_bytes()).unwrap();
        assert_eq!(
            manager.apply_observation(seen.site_id, seen.structure_type, seen.owner, seen.options),
            Ok(())
        );
    }
    assert_eq!(parse_int(b"2\n"), Some(2));
    for line in ["120 120 0 -1 100\n", "1800 880 1 -1 100\n"] {
        manager.observe_unit(parse_unit(line.as_bytes()).unwrap());
    }
    assert!(manager.has_queen());
    let lines = manager.process(turn.touched_site);
    assert_eq!(lines.0, "BUILD 0 MINE");
    assert_eq!(lines.1, "TRAIN");
}
