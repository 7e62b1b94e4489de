use hyper_core::digest::sha256_hex;
use hyper_core::pattern::is_match;
use hyper_core::text::{
    chars_of, clone_strings, matches_at, parse_i64, parse_u64, render_i64, render_u64, rewrite,
    str_equal, string_of,
};

#[test]
fn characters_round_trip_through_a_vector() {
    let chars = chars_of("héllo, wörld");
    assert_eq!(chars.len(), 12);
    assert_eq!(chars[1], 'é');
    assert_eq!(string_of(&chars), "héllo, wörld");
    assert_eq!(string_of(&Vec::new()), "");
}

#[test]
fn string_equality_is_by_content() {
    assert!(str_equal("", ""));
    assert!(str_equal("deploy_app", "deploy_app"));
    assert!(!str_equal("deploy_app", "deploy_apq"));
    assert!(!str_equal("deploy_app", "deploy_ap"));
    assert!(!str_equal("a", ""));
}

#[test]
fn unsigned_numbers_are_rendered_in_decimal() {
    assert_eq!(render_u64(0), "0");
    assert_eq!(render_u64(7), "7");
    assert_eq!(render_u64(10), "10");
    assert_eq!(render_u64(1640995200), "1640995200");
    assert_eq!(render_u64(u64::MAX), "18446744073709551615");
}

#[test]
fn signed_numbers_are_rendered_in_decimal() {
    assert_eq!(render_i64(0), "0");
    assert_eq!(render_i64(-5), "-5");
    assert_eq!(render_i64(314159), "314159");
    assert_eq!(render_i64(i64::MAX), "9223372036854775807");
    assert_eq!(render_i64(i64::MIN), "-9223372036854775808");
}

#[test]
fn unsigned_numbers_are_parsed_from_decimal() {
    assert_eq!(parse_u64("0"), Some(0));
    assert_eq!(parse_u64("007"), Some(7));
    assert_eq!(parse_u64("18446744073709551615"), Some(u64::MAX));
    assert_eq!(parse_u64("18446744073709551616"), None);
    assert_eq!(parse_u64("99999999999999999999999"), None);
    assert_eq!(parse_u64(""), None);
    assert_eq!(parse_u64("-1"), None);
    assert_eq!(parse_u64("+1"), None);
    assert_eq!(parse_u64("12a"), None);
    assert_eq!(parse_u64(" 12"), None);
}

#[test]
fn signed_numbers_are_parsed_from_decimal() {
    assert_eq!(parse_i64("0"), Some(0));
    assert_eq!(parse_i64("-0"), Some(0));
    assert_eq!(parse_i64("-5"), Some(-5));
    assert_eq!(parse_i64("9223372036854775807"), Some(i64::MAX));
    assert_eq!(parse_i64("9223372036854775808"), None);
    assert_eq!(parse_i64("-9223372036854775808"), Some(i64::MIN));
    assert_eq!(parse_i64("-9223372036854775809"), None);
    assert_eq!(parse_i64("-"), None);
    assert_eq!(parse_i64("--1"), None);
    assert_eq!(parse_i64(""), None);
    assert_eq!(parse_i64("1.5"), None);
}

#[test]
fn rendering_and_parsing_are_inverse() {
    for n in [0u64, 1, 9, 10, 99, 100, 12345, u64::MAX - 1, u64::MAX] {
        assert_eq!(parse_u64(&render_u64(n)), Some(n));
    }
    for n in [0i64, 1, -1, 10, -10, 314159, -314159, i64::MAX, i64::MIN] {
        assert_eq!(parse_i64(&render_i64(n)), Some(n));
    }
}

#[test]
fn occurrences_are_found_and_replaced_from_the_left() {
    let text = chars_of("aaaa");
    let pattern = chars_of("aa");
    let with = chars_of("b");
    let (out, count) = rewrite(&text, &pattern, &with);
    assert_eq!(string_of(&out), "bb");
    assert_eq!(count, 2);

    let text = chars_of("aaa");
    let (out, count) = rewrite(&text, &pattern, &with);
    assert_eq!(string_of(&out), "ba");
    assert_eq!(count, 1);

    let text = chars_of("xyz");
    let (out, count) = rewrite(&text, &pattern, &with);
    assert_eq!(string_of(&out), "xyz");
    assert_eq!(count, 0);
}

#[test]
fn an_empty_pattern_occurs_nowhere() {
    let text = chars_of("abc");
    let (out, count) = rewrite(&text, &Vec::new(), &chars_of("x"));
    assert_eq!(string_of(&out), "abc");
    assert_eq!(count, 0);
    assert!(matches_at(&text, &Vec::new(), 3));
    assert!(!matches_at(&text, &Vec::new(), 4));
}

#[test]
fn a_pattern_is_matched_at_a_position() {
    let text = chars_of("a volatile b");
    let pattern = chars_of("volatile");
    assert!(matches_at(&text, &pattern, 2));
    assert!(!matches_at(&text, &pattern, 1));
    assert!(!matches_at(&text, &pattern, 5));
    assert!(!matches_at(&text, &pattern, 100));
}

#[test]
fn a_list_of_strings_is_copied() {
    let list = vec!["a".to_string(), "".to_string(), "c".to_string()];
    assert_eq!(clone_strings(&list), list);
    assert_eq!(clone_strings(&Vec::new()), Vec::<String>::new());
}

#[test]
fn the_hash_is_sha256_in_lower_case_hex() {
    assert_eq!(
        sha256_hex("abc"),
        "ba7816bf8f01cfea414140de5dae2223b00361a396177a9cb410ff61f20015ad"
    );
    assert_eq!(
        sha256_hex(""),
        "e3b0c44298fc1c149afbf4c8996fb92427ae41e4649b934ca495991b7852b855"
    );
    assert_eq!(sha256_hex("MiningRewardminer_1").len(), 64);
    assert_ne!(sha256_hex("abc"), "abc");
}

#[test]
fn a_regular_expression_is_searched_for() {
    assert_eq!(is_match("(?i)bitcoin|ethereum", "Bitcoin news"), Some(true));
    assert_eq!(is_match("(?i)bitcoin|ethereum", "PI reward"), Some(false));
    assert_eq!(is_match("^a+$", "aaa"), Some(true));
    assert_eq!(is_match("^a+$", "aab"), Some(false));
    assert_eq!(is_match("foo(bar", "foo(bar"), None);
}
