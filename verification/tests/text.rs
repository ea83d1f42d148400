use site_backend::text::chars_of;
use site_backend::text::join;
use site_backend::text::last_segment;
use site_backend::text::parse_u32;

#[test]
fn last_segment_is_behind_the_last_separator() {
    assert_eq!(last_segment("rating rated-8", '-'), "8");
    assert_eq!(last_segment("a-b-c", '-'), "c");
    assert_eq!(last_segment("abc", '-'), "abc");
    assert_eq!(last_segment("abc-", '-'), "");
    assert_eq!(last_segment("-", '-'), "");
    assert_eq!(last_segment("", '-'), "");
}

#[test]
fn last_segment_counts_characters_not_bytes() {
    assert_eq!(last_segment("é-ü", '-'), "ü");
    assert_eq!(last_segment("★★-½", '-'), "½");
    assert_eq!(last_segment("a★b", '★'), "b");
}

#[test]
fn last_segment_agrees_with_split() {
    let samples = ["", "-", "--", "a", "a-", "-a", "a-b", "rating -tiny rated-10", "x--y", "★-★-"];
    for sample in samples {
        assert_eq!(Some(last_segment(sample, '-')), sample.split("-").last());
    }
}

#[test]
fn parse_u32_reads_decimal_numbers() {
    assert_eq!(parse_u32("0"), Some(0));
    assert_eq!(parse_u32("8"), Some(8));
    assert_eq!(parse_u32("10"), Some(10));
    assert_eq!(parse_u32("+8"), Some(8));
    assert_eq!(parse_u32("007"), Some(7));
    assert_eq!(parse_u32("4294967295"), Some(4294967295));
    assert_eq!(parse_u32("00000000004294967295"), Some(4294967295));
}

#[test]
fn parse_u32_refuses_what_is_no_number() {
    assert_eq!(parse_u32(""), None);
    assert_eq!(parse_u32("+"), None);
    assert_eq!(parse_u32("++1"), None);
    assert_eq!(parse_u32("-"), None);
    assert_eq!(parse_u32("-1"), None);
    assert_eq!(parse_u32("1a"), None);
    assert_eq!(parse_u32("a1"), None);
    assert_eq!(parse_u32(" 1"), None);
    assert_eq!(parse_u32("1 "), None);
    assert_eq!(parse_u32("1+"), None);
    assert_eq!(parse_u32("１"), None);
    assert_eq!(parse_u32("rated"), None);
}

#[test]
fn parse_u32_refuses_what_does_not_fit() {
    assert_eq!(parse_u32("4294967296"), None);
    assert_eq!(parse_u32("4294967300"), None);
    assert_eq!(parse_u32("42949672950"), None);
    assert_eq!(parse_u32("99999999999999999999999"), None);
}

#[test]
fn parse_u32_agrees_with_the_standard_parser() {
    let samples = [
        "", "+", "-", "0", "+0", "-0", "1", "12", "0012", "+12", "++12", "12+", "1_000", "4294967295",
        "4294967296", "+4294967295", "429496729", "4294967294", "5000000000", "18446744073709551616",
        "٣", "1.0", "0x10", " 7", "7\n",
    ];
    for sample in samples {
        assert_eq!(parse_u32(sample), sample.parse::<u32>().ok(), "{:?}", sample);
    }
}

#[test]
fn chars_of_lists_the_characters() {
    assert_eq!(chars_of(""), Vec::<char>::new());
    assert_eq!(chars_of("a★b"), vec!['a', '★', 'b']);
}

#[test]
fn join_puts_the_second_behind_the_first() {
    assert_eq!(join("", ""), "");
    assert_eq!(join("ab", "cd"), "abcd");
    assert_eq!(join("ab", ""), "ab");
    assert_eq!(join("", "cd"), "cd");
}
