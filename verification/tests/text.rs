use ymusic::text::{
    decimal_string, drop_last_char, join_strings, remove_char, str_eq, zero_pad_string,
};

#[test]
fn decimal_of_zero_is_a_single_digit() {
    assert_eq!(decimal_string(0), "0");
}

#[test]
fn decimal_has_no_leading_zero() {
    assert_eq!(decimal_string(7), "7");
    assert_eq!(decimal_string(10), "10");
    assert_eq!(decimal_string(1700000000), "1700000000");
    assert_eq!(decimal_string(9007199254740993), "9007199254740993");
}

#[test]
fn decimal_of_the_largest_value() {
    assert_eq!(decimal_string(u64::MAX), "18446744073709551615");
}

#[test]
fn str_eq_compares_characters() {
    assert!(str_eq("flac", "flac"));
    assert!(!str_eq("flac", "FLAC"));
    assert!(!str_eq("flac", "flac "));
    assert!(str_eq("", ""));
}

#[test]
fn remove_char_takes_out_every_occurrence() {
    assert_eq!(remove_char("a,b,,c", ','), "abc");
    assert_eq!(remove_char(",,,", ','), "");
    assert_eq!(remove_char("", ','), "");
    assert_eq!(remove_char("flac,flac-mp4,mp3", ','), "flacflac-mp4mp3");
}

#[test]
fn remove_char_keeps_other_characters_in_order() {
    assert_eq!(remove_char("трек,один", ','), "трекодин");
}

#[test]
fn join_puts_separator_between_neighbours() {
    let parts = vec!["a".to_string(), "b".to_string(), "c".to_string()];
    assert_eq!(join_strings(&parts, "; "), "a; b; c");
}

#[test]
fn join_of_one_or_none() {
    assert_eq!(join_strings(&vec!["solo".to_string()], "; "), "solo");
    assert_eq!(join_strings(&Vec::new(), "; "), "");
}

#[test]
fn join_keeps_empty_parts() {
    let parts = vec!["".to_string(), "b".to_string(), "".to_string()];
    assert_eq!(join_strings(&parts, ","), ",b,");
}

#[test]
fn zero_pad_fills_on_the_left() {
    assert_eq!(zero_pad_string("3", 2), "03");
    assert_eq!(zero_pad_string("", 2), "00");
    assert_eq!(zero_pad_string("7", 4), "0007");
}

#[test]
fn zero_pad_leaves_long_text() {
    assert_eq!(zero_pad_string("12", 2), "12");
    assert_eq!(zero_pad_string("123", 2), "123");
    assert_eq!(zero_pad_string("null", 2), "null");
}

#[test]
fn zero_pad_counts_characters_not_bytes() {
    assert_eq!(zero_pad_string("é", 2), "0é");
}

#[test]
fn drop_last_char_drops_one() {
    assert_eq!(drop_last_char("abc="), "abc");
    assert_eq!(drop_last_char("x"), "");
    assert_eq!(drop_last_char(""), "");
    assert_eq!(drop_last_char("aé"), "a");
}
