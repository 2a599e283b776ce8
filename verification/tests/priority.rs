use tasked::common::paint::Tint;
use tasked::common::text::to_decimal;
use tasked::common::Priority;

#[test]
fn tagged_title_has_its_priority() {
    assert_eq!(Priority::from_title("[p1] Buy milk"), Priority::P1);
}

#[test]
fn plain_title_has_lowest_priority() {
    assert_eq!(Priority::from_title("Buy milk"), Priority::P5);
}

#[test]
fn unmapped_digit_falls_back_to_lowest_priority() {
    assert_eq!(Priority::from_title("[p9] X"), Priority::P5);
}

#[test]
fn every_mapped_tag_is_recognised() {
    assert_eq!(Priority::from_title("[p2] call the bank"), Priority::P2);
    assert_eq!(Priority::from_title("[p3]"), Priority::P3);
    assert_eq!(Priority::from_title("[p4]x"), Priority::P4);
    assert_eq!(Priority::from_title("[p5] explicit"), Priority::P5);
    assert_eq!(Priority::from_title("[p0] zero"), Priority::P5);
}

#[test]
fn tag_counts_only_at_the_start() {
    assert_eq!(Priority::from_title("Buy [p1] milk"), Priority::P5);
    assert_eq!(Priority::from_title(" [p1] milk"), Priority::P5);
    assert_eq!(Priority::from_title("[p12] milk"), Priority::P5);
    assert_eq!(Priority::from_title("[P1] milk"), Priority::P5);
    assert_eq!(Priority::from_title("[p1"), Priority::P5);
    assert_eq!(Priority::from_title(""), Priority::P5);
}

#[test]
fn title_with_wide_characters_is_scanned_by_character() {
    assert_eq!(Priority::from_title("[p2] café ☕"), Priority::P2);
    assert_eq!(Priority::from_title("é[p2]"), Priority::P5);
}

#[test]
fn find_reads_exact_tags() {
    assert_eq!(Priority::find("[p1]"), Priority::P1);
    assert_eq!(Priority::find("[p2]"), Priority::P2);
    assert_eq!(Priority::find("[p3]"), Priority::P3);
    assert_eq!(Priority::find("[p4]"), Priority::P4);
    assert_eq!(Priority::find("[p5]"), Priority::P5);
    assert_eq!(Priority::find("[p1] "), Priority::P5);
    assert_eq!(Priority::find("p1"), Priority::P5);
    assert_eq!(Priority::find(""), Priority::P5);
}

#[test]
fn default_priority_is_the_lowest() {
    assert_eq!(Priority::default(), Priority::P5);
}

#[test]
fn ranks_run_from_one_to_five() {
    assert_eq!(Priority::P1.rank(), 1);
    assert_eq!(Priority::P2.rank(), 2);
    assert_eq!(Priority::P3.rank(), 3);
    assert_eq!(Priority::P4.rank(), 4);
    assert_eq!(Priority::P5.rank(), 5);
    assert!(Priority::P1.outranks(&Priority::P2));
    assert!(Priority::P4.outranks(&Priority::P5));
    assert!(!Priority::P3.outranks(&Priority::P3));
    assert!(!Priority::P5.outranks(&Priority::P1));
}

#[test]
fn color_wraps_the_text_in_the_escape_codes_of_the_priority() {
    assert_eq!(Priority::P1.color("x".to_string()), "\u{1b}[38;2;255;0;0mx\u{1b}[0m");
    assert_eq!(Priority::P2.color("x".to_string()), "\u{1b}[38;2;255;165;0mx\u{1b}[0m");
    assert_eq!(Priority::P3.color("x".to_string()), "\u{1b}[38;2;255;215;0mx\u{1b}[0m");
    assert_eq!(Priority::P4.color("x".to_string()), "\u{1b}[38;2;0;128;0mx\u{1b}[0m");
    assert_eq!(Priority::P5.color("Buy milk".to_string()), "\u{1b}[38;2;0;0;255mBuy milk\u{1b}[0m");
    assert_eq!(Priority::P5.color(String::new()), "\u{1b}[38;2;0;0;255m\u{1b}[0m");
}

#[test]
fn color_is_not_the_identity() {
    assert_ne!(Priority::P1.color("plain".to_string()), "plain");
}

#[test]
fn tints_are_distinct_values() {
    assert_ne!(Tint::Blue, Tint::Cyan);
    assert_eq!(Tint::Rgb(1, 2, 3), Tint::Rgb(1, 2, 3));
}

#[test]
fn decimal_numerals() {
    assert_eq!(to_decimal(0), "0");
    assert_eq!(to_decimal(7), "7");
    assert_eq!(to_decimal(10), "10");
    assert_eq!(to_decimal(27), "27");
    assert_eq!(to_decimal(1234567890), "1234567890");
    assert_eq!(to_decimal(usize::MAX), format!("{}", usize::MAX));
}

#[test]
fn leading_tag_agrees_with_the_anchored_pattern() {
    let pattern = regex::Regex::new(r"^\[p[1-9]\]").unwrap();
    let titles = [
        "[p1] Buy milk",
        "Buy milk",
        "[p9] X",
        "[p2]",
        "[p3]x[p1]",
        "x[p1]",
        "[p4",
        "[p]",
        "[p10]",
        "[p0]",
        "[pa]",
        "[[p1]]",
        "",
    ];
    for title in titles {
        let expected = match pattern.find(title) {
            Some(tag) => Priority::find(tag.as_str()),
            None => Priority::P5,
        };
        assert_eq!(Priority::from_title(title), expected);
    }
}
