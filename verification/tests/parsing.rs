//! Tag-string parsing behavior.

use nominal_bridge::tags::parse_tags_csv;

#[test]
fn test_parse_tags_csv() {
    let tags = parse_tags_csv("key1=value1,key2=value2");
    assert_eq!(tags.len(), 2);
    assert_eq!(tags[0], ("key1", "value1"));
    assert_eq!(tags[1], ("key2", "value2"));
}

#[test]
fn test_parse_tags_csv_empty() {
    let tags = parse_tags_csv("");
    assert_eq!(tags.len(), 0);
}

#[test]
fn parse_round_trip_two_pairs() {
    let tags = parse_tags_csv("a=1,b=2");
    assert_eq!(tags, vec![("a", "1"), ("b", "2")]);
}

#[test]
fn parse_drops_malformed_segment() {
    let tags = parse_tags_csv("a=1,bad,c=3");
    assert_eq!(tags, vec![("a", "1"), ("c", "3")]);
}

#[test]
fn parse_trims_whitespace() {
    let tags = parse_tags_csv(" a = 1 ,\tb\t=  2");
    assert_eq!(tags, vec![("a", "1"), ("b", "2")]);
}

#[test]
fn parse_drops_segment_with_two_equals() {
    let tags = parse_tags_csv("a=1=2");
    assert_eq!(tags.len(), 0);
}

#[test]
fn parse_trailing_comma_ignored() {
    let tags = parse_tags_csv("a=1,");
    assert_eq!(tags, vec![("a", "1")]);
}

#[test]
fn parse_value_may_be_empty() {
    let tags = parse_tags_csv("a=");
    assert_eq!(tags, vec![("a", "")]);
}
