use royale_bot::command::{built, make_built, move_to, push_integer, push_natural, train, train_at, wait};
use royale_bot::site::SiteType;

fn integer_text(v: i64) -> String {
    let mut out = String::new();
    push_integer(&mut out, v);
    out
}

fn natural_text(n: u64) -> String {
    let mut out = String::new();
    push_natural(&mut out, n);
    out
}

#[test]
fn numbers_are_written_in_base_ten() {
    assert_eq!(integer_text(0), "0");
    assert_eq!(integer_text(7), "7");
    assert_eq!(integer_text(10), "10");
    assert_eq!(integer_text(1920), "1920");
    assert_eq!(integer_text(100200300), "100200300");
    assert_eq!(natural_text(0), "0");
    assert_eq!(natural_text(9), "9");
    assert_eq!(natural_text(1234567890), "1234567890");
}

#[test]
fn negative_numbers_carry_a_minus_sign() {
    assert_eq!(integer_text(-1), "-1");
    assert_eq!(integer_text(-80), "-80");
    assert_eq!(integer_text(-2147483648), "-2147483648");
}

#[test]
fn extreme_numbers_are_written_like_std_writes_them() {
    for v in [i64::MIN, i64::MIN + 1, -1, 0, 1, i64::MAX - 1, i64::MAX] {
        assert_eq!(integer_text(v), v.to_string());
    }
    for n in [0, 1, 99, 100, u64::MAX - 1, u64::MAX] {
        assert_eq!(natural_text(n), n.to_string());
    }
}

#[test]
fn numbers_are_appended_to_what_stands_before() {
    let mut out = String::from("id ");
    push_integer(&mut out, 42);
    out.push(' ');
    push_natural(&mut out, 7);
    assert_eq!(out, "id 42 7");
}

#[test]
fn build_lines() {
    assert_eq!(built(0, SiteType::Mine), "BUILD 0 MINE");
    assert_eq!(built(12, SiteType::Tower), "BUILD 12 TOWER");
    assert_eq!(built(3, SiteType::Barracks), "BUILD 3 BARRACKS-KNIGHT");
    assert_eq!(built(-4, SiteType::Mine), "BUILD -4 MINE");
    assert_eq!(built(i32::MAX, SiteType::Tower), "BUILD 2147483647 TOWER");
}

#[test]
fn build_line_of_no_structure_names_none() {
    assert_eq!(built(5, SiteType::Empty), "BUILD 5 ");
}

#[test]
fn move_lines() {
    assert_eq!(move_to(100, 200), "MOVE 100 200");
    assert_eq!(move_to(0, 0), "MOVE 0 0");
    assert_eq!(move_to(-5, 1000), "MOVE -5 1000");
    assert_eq!(move_to(i32::MIN, i32::MAX), "MOVE -2147483648 2147483647");
}

#[test]
fn wait_line() {
    assert_eq!(wait(), "WAIT");
}

#[test]
fn train_lines() {
    assert_eq!(train(&vec![]), "TRAIN");
    assert_eq!(train(&vec![5]), "TRAIN 5");
    assert_eq!(train(&vec![1, 2, 3]), "TRAIN 1 2 3");
    assert_eq!(train(&vec![10, 0, 21]), "TRAIN 10 0 21");
    assert_eq!(train(&vec![-1]), "TRAIN -1");
}

#[test]
fn train_lines_of_sizes() {
    assert_eq!(train_at(&vec![]), "TRAIN");
    assert_eq!(train_at(&vec![5]), "TRAIN 5");
    assert_eq!(train_at(&vec![1, 2, 3]), "TRAIN 1 2 3");
    assert_eq!(train_at(&vec![usize::MAX]), format!("TRAIN {}", usize::MAX));
}

#[test]
fn build_lines_by_number() {
    assert_eq!(make_built(&7, 2, 0), "BUILD 7 BARRACKS-KNIGHT");
    assert_eq!(make_built(&7, 2, 1), "BUILD 7 BARRACKS-ARCHER");
    assert_eq!(make_built(&7, 2, 2), "BUILD 7 BARRACKS-GIANT");
    assert_eq!(make_built(&0, 1, 0), "BUILD 0 TOWER");
    assert_eq!(make_built(&0, 1, 2), "BUILD 0 TOWER");
}

#[test]
fn build_lines_by_unknown_number() {
    assert_eq!(make_built(&7, 2, 3), "BUILD 7 BARRACKS-");
    assert_eq!(make_built(&7, 2, -1), "BUILD 7 BARRACKS-");
    assert_eq!(make_built(&7, 0, 0), "BUILD 7 ");
    assert_eq!(make_built(&7, -1, 0), "BUILD 7 ");
    assert_eq!(make_built(&7, 3, 1), "BUILD 7 ");
}
