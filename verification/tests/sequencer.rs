use dockyard::sequencer::{
    next_available_number, order, parse_patch_number, patch_file_name, SequenceError,
};

fn names(list: &[&str]) -> Vec<String> {
    list.iter().map(|s| s.to_string()).collect()
}

#[test]
fn parse_reads_number_before_first_dash() {
    assert_eq!(parse_patch_number("0001-update-line1.patch"), Some(1));
    assert_eq!(parse_patch_number("0010-x.patch"), Some(10));
    assert_eq!(parse_patch_number("12345-wide.patch"), Some(12345));
    assert_eq!(parse_patch_number("7"), Some(7));
    assert_eq!(parse_patch_number("0000-zero.patch"), Some(0));
}

#[test]
fn parse_accepts_a_plus_sign() {
    assert_eq!(parse_patch_number("+12-x.patch"), Some(12));
    assert_eq!("+12".parse::<u32>(), Ok(12));
    assert_eq!(parse_patch_number("+-x.patch"), None);
    assert_eq!(parse_patch_number("++1-x.patch"), None);
}

#[test]
fn parse_rejects_what_is_no_number() {
    assert_eq!(parse_patch_number("update-line1.patch"), None);
    assert_eq!(parse_patch_number("-1-x.patch"), None);
    assert_eq!(parse_patch_number(""), None);
    assert_eq!(parse_patch_number("12a-x.patch"), None);
    assert_eq!(parse_patch_number(" 1-x.patch"), None);
    assert_eq!(parse_patch_number("1_0-x.patch"), None);
    assert_eq!(parse_patch_number("١-x.patch"), None);
}

#[test]
fn parse_bounds_number_by_32_bits() {
    assert_eq!(parse_patch_number("4294967295-max.patch"), Some(u32::MAX));
    assert_eq!(parse_patch_number("4294967296-over.patch"), None);
    assert_eq!(parse_patch_number("99999999999999999999999-over.patch"), None);
    assert_eq!(parse_patch_number("000000000000000000000001-x.patch"), Some(1));
}

#[test]
fn order_is_numeric_not_lexicographic() {
    let listed = names(&["0010-c.patch", "0001-a.patch", "0002-b.patch"]);
    assert_eq!(
        order(&listed),
        Ok(names(&["0001-a.patch", "0002-b.patch", "0010-c.patch"]))
    );
}

#[test]
fn order_compares_numbers_of_unequal_width() {
    let listed = names(&["100-c.patch", "0020-b.patch", "3-a.patch"]);
    assert_eq!(order(&listed), Ok(names(&["3-a.patch", "0020-b.patch", "100-c.patch"])));
}

#[test]
fn order_of_nothing_is_nothing() {
    assert_eq!(order(&Vec::new()), Ok(Vec::new()));
}

#[test]
fn order_keeps_sorted_input() {
    let listed = names(&["0001-a.patch", "0002-b.patch"]);
    assert_eq!(order(&listed), Ok(listed.clone()));
}

#[test]
fn order_reports_first_name_without_number() {
    let listed = names(&["0001-a.patch", "readme.txt", "0002-b.patch", "notes"]);
    assert_eq!(
        order(&listed),
        Err(SequenceError::InvalidPatchName { name: "readme.txt".to_string() })
    );
}

#[test]
fn order_reports_repeated_number() {
    let listed = names(&["0003-a.patch", "0001-b.patch", "3-c.patch", "0001-d.patch"]);
    assert_eq!(order(&listed), Err(SequenceError::DuplicatePrefix { number: 3 }));
}

#[test]
fn order_reports_name_listed_twice() {
    let listed = names(&["0001-a.patch", "0001-a.patch"]);
    assert_eq!(order(&listed), Err(SequenceError::DuplicatePrefix { number: 1 }));
}

#[test]
fn order_puts_missing_number_before_repeated_number() {
    let listed = names(&["0001-a.patch", "0001-b.patch", "x.patch"]);
    assert_eq!(
        order(&listed),
        Err(SequenceError::InvalidPatchName { name: "x.patch".to_string() })
    );
}

#[test]
fn next_number_is_one_without_patches() {
    assert_eq!(next_available_number(&Vec::new()), Some(1));
    assert_eq!(next_available_number(&names(&["README", "notes.txt"])), Some(1));
}

#[test]
fn next_number_follows_greatest() {
    let listed = names(&["0001-a.patch", "0010-b.patch", "0002-c.patch", "junk"]);
    assert_eq!(next_available_number(&listed), Some(11));
    assert_eq!(next_available_number(&names(&["0000-a.patch"])), Some(1));
}

#[test]
fn next_number_runs_out_at_greatest_number() {
    assert_eq!(next_available_number(&names(&["4294967295-last.patch"])), None);
    assert_eq!(next_available_number(&names(&["4294967294-x.patch"])), Some(u32::MAX));
}

#[test]
fn patch_file_name_pads_number() {
    assert_eq!(patch_file_name(1, "change_name"), "0001-change_name.patch");
    assert_eq!(patch_file_name(11, "update-line4"), "0011-update-line4.patch");
    assert_eq!(patch_file_name(12345, "wide"), "12345-wide.patch");
}

#[test]
fn patch_file_name_carries_its_number() {
    for number in [0, 1, 9, 10, 9999, 10000, u32::MAX] {
        assert_eq!(parse_patch_number(&patch_file_name(number, "a-b")), Some(number));
    }
}

#[test]
fn new_patch_sorts_last() {
    let mut listed = names(&["0002-b.patch", "0001-a.patch"]);
    let number = next_available_number(&listed).unwrap();
    let fresh = patch_file_name(number, "change_name");
    listed.insert(0, fresh.clone());
    let sorted = order(&listed).unwrap();
    assert_eq!(sorted, names(&["0001-a.patch", "0002-b.patch", "0003-change_name.patch"]));
    assert_eq!(sorted.last(), Some(&fresh));
}

#[test]
fn order_of_an_order_is_the_same() {
    let listed = names(&["0010-c.patch", "0001-a.patch", "0002-b.patch"]);
    let sorted = order(&listed).unwrap();
    assert_eq!(order(&sorted), Ok(sorted.clone()));
}
