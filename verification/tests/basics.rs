use fpl_proxy::ranking::sort_ranked;
use fpl_proxy::saturate::narrow_i32;
use fpl_proxy::saturate::narrow_u32;
use fpl_proxy::storage::table::InjuryStatus;
use fpl_proxy::storage::table::Position;
use fpl_proxy::storage::table::Scoring;
use fpl_proxy::structs::live::FixtureStat;
use fpl_proxy::structs::teamgw::Pick;
use fpl_proxy::text::decimal_text;
use fpl_proxy::text::join;
use fpl_proxy::text::parse_decimal;
use fpl_proxy::text::same_text;
use fpl_proxy::text::signed_decimal_text;

#[test]
fn positions_have_their_names() {
    let names: Vec<String> = (0..6).map(|n| Position::from_number(n).name).collect();
    assert_eq!(names, vec!["", "GK", "DEF", "MID", "FWD", ""]);
    assert_eq!(Position::from_number(3).number, 3);
    assert_eq!(Position::from_number(77).number, 77);
}

#[test]
fn scoring_codes() {
    assert_eq!(Scoring::from_fpl_str("h"), Scoring::H2H);
    assert_eq!(Scoring::from_fpl_str("c"), Scoring::CLASSIC);
    assert_eq!(Scoring::from_fpl_str("H"), Scoring::CLASSIC);
    assert_eq!(Scoring::from_fpl_str("hh"), Scoring::CLASSIC);
    assert_eq!(Scoring::from_fpl_str(""), Scoring::CLASSIC);
}

#[test]
fn injury_status_codes() {
    assert_eq!(InjuryStatus::from_fpl_str("a"), InjuryStatus::Available);
    assert_eq!(InjuryStatus::from_fpl_str("d"), InjuryStatus::Doubt);
    for code in ["u", "i", "s", "n"] {
        assert_eq!(InjuryStatus::from_fpl_str(code), InjuryStatus::Unavailable);
    }
    assert_eq!(InjuryStatus::from_fpl_str("z"), InjuryStatus::Available);
    assert_eq!(InjuryStatus::from_fpl_str(""), InjuryStatus::Available);
    assert_eq!(InjuryStatus::from_fpl_str("ui"), InjuryStatus::Available);
}

#[test]
fn numbers_in_decimal() {
    assert_eq!(decimal_text(0), "0");
    assert_eq!(decimal_text(7), "7");
    assert_eq!(decimal_text(10), "10");
    assert_eq!(decimal_text(1234567890), "1234567890");
    assert_eq!(decimal_text(u64::MAX), "18446744073709551615");
    assert_eq!(signed_decimal_text(0), "0");
    assert_eq!(signed_decimal_text(-1), "-1");
    assert_eq!(signed_decimal_text(305), "305");
    assert_eq!(signed_decimal_text(i64::MIN), "-9223372036854775808");
    assert_eq!(signed_decimal_text(i64::MAX), "9223372036854775807");
}

#[test]
fn text_is_compared_and_joined() {
    assert!(same_text("bps", "bps"));
    assert!(!same_text("bps", "bp"));
    assert!(!same_text("bps", "BPS"));
    assert!(same_text("", ""));
    assert_eq!(join("ab", "cd"), "abcd");
    assert_eq!(join("", "x"), "x");
}

#[test]
fn sums_are_brought_into_range() {
    assert_eq!(narrow_i32(0), 0);
    assert_eq!(narrow_i32(-5), -5);
    assert_eq!(narrow_i32(2147483647), i32::MAX);
    assert_eq!(narrow_i32(2147483648), i32::MAX);
    assert_eq!(narrow_i32(-2147483648), i32::MIN);
    assert_eq!(narrow_i32(-2147483649), i32::MIN);
    assert_eq!(narrow_i32(i128::MAX), i32::MAX);
    assert_eq!(narrow_u32(12), 12);
    assert_eq!(narrow_u32(4294967295), u32::MAX);
    assert_eq!(narrow_u32(4294967296), u32::MAX);
}

#[test]
fn ranking_puts_the_highest_score_first_and_keeps_ties_in_order() {
    let mut pool = vec![
        FixtureStat { element: 1, value: 20 },
        FixtureStat { element: 2, value: 42 },
        FixtureStat { element: 3, value: 35 },
        FixtureStat { element: 4, value: 42 },
        FixtureStat { element: 5, value: 35 },
    ];
    sort_ranked(&mut pool);
    let order: Vec<u32> = pool.iter().map(|s| s.element).collect();
    assert_eq!(order, vec![2, 4, 3, 5, 1]);
}

#[test]
fn picks_are_ordered_by_slot() {
    let pick = |element: i32, position: i32| Pick {
        element,
        position,
        is_captain: None,
        is_vice_captain: None,
        multiplier: None,
    };
    let mut picks = vec![pick(1, 3), pick(2, 1), pick(3, 2), pick(4, 1)];
    sort_ranked(&mut picks);
    let order: Vec<i32> = picks.iter().map(|p| p.element).collect();
    assert_eq!(order, vec![2, 4, 3, 1]);
    let mut none: Vec<Pick> = Vec::new();
    sort_ranked(&mut none);
    assert!(none.is_empty());
}

#[test]
fn numerals_are_read_back() {
    assert_eq!(parse_decimal("0"), Some(0));
    assert_eq!(parse_decimal("7"), Some(7));
    assert_eq!(parse_decimal("305"), Some(305));
    assert_eq!(parse_decimal("4294967295"), Some(u32::MAX));
    assert_eq!(parse_decimal("4294967296"), None);
    assert_eq!(parse_decimal("99999999999999999999999999"), None);
    assert_eq!(parse_decimal(""), None);
    assert_eq!(parse_decimal("007"), None);
    assert_eq!(parse_decimal("00"), None);
    assert_eq!(parse_decimal("+7"), None);
    assert_eq!(parse_decimal("-7"), None);
    assert_eq!(parse_decimal(" 7"), None);
    assert_eq!(parse_decimal("7 "), None);
    assert_eq!(parse_decimal("12a"), None);
    assert_eq!(parse_decimal("١٢"), None);
    for n in [0u32, 9, 10, 99, 100, 1234, 65535, 1000000, u32::MAX] {
        assert_eq!(parse_decimal(&decimal_text(n as u64)), Some(n));
    }
}
